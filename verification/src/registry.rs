//! The schema registry: the tables that statements may name, by name.

use crate::error::{BridgeError, BridgeErrorView};
use crate::model::{TableDefinition, TableDefinitionView};
use vstd::prelude::*;

verus! {

/// The table definitions known to a translation. It is filled once, before
/// the first translation, and read from then on.
pub struct SchemaRegistry {
    tables: Vec<TableDefinition>,
}

impl SchemaRegistry {
    /// No two definitions share a name.
    #[verifier::type_invariant]
    closed spec fn distinct_names(&self) -> bool {
        forall|i: int, j: int|
            0 <= i < j < self.tables.len() ==> self.tables[i].name@ != self.tables[j].name@
    }

    /// Whether a definition named `name` is held.
    spec fn has(&self, name: Seq<char>) -> bool {
        exists|i: int| 0 <= i < self.tables.len() && #[trigger] self.tables[i].name@ == name
    }

    /// Where the definition named `name` stands, if one is held.
    spec fn index_of(&self, name: Seq<char>) -> int {
        choose|i: int| 0 <= i < self.tables.len() && #[trigger] self.tables[i].name@ == name
    }

    /// The registry as a map from table name to definition.
    pub closed spec fn view(&self) -> Map<Seq<char>, TableDefinitionView> {
        Map::new(
            |name: Seq<char>| self.has(name),
            |name: Seq<char>| self.tables[self.index_of(name)]@,
        )
    }

    /// A registry that holds no table.
    pub fn new() -> (registry: SchemaRegistry)
        ensures
            registry@ == Map::<Seq<char>, TableDefinitionView>::empty(),
    {
        let registry = SchemaRegistry { tables: Vec::new() };
        registry
    }

    /// How many tables are registered.
    pub fn len(&self) -> (n: usize)
        ensures
            n == self@.dom().len(),
            self@.dom().finite(),
    {
        proof {
            use_type_invariant(self);
            self.lemma_domain_size(self.tables.len() as int);
            assert(self.names_below(self.tables.len() as int) =~= self@.dom());
        }
        self.tables.len()
    }

    /// The names of the first `n` definitions.
    spec fn names_below(&self, n: int) -> Set<Seq<char>> {
        Set::new(
            |name: Seq<char>|
                exists|i: int| 0 <= i < n && #[trigger] self.tables[i].name@ == name,
        )
    }

    proof fn lemma_domain_size(&self, n: int)
        requires
            self.distinct_names(),
            0 <= n <= self.tables.len(),
        ensures
            self.names_below(n).finite(),
            self.names_below(n).len() == n,
        decreases n,
    {
        if n == 0 {
            assert(self.names_below(0) =~= Set::<Seq<char>>::empty());
        } else {
            self.lemma_domain_size(n - 1);
            let last = self.tables[n - 1].name@;
            assert(self.names_below(n) =~= self.names_below(n - 1).insert(last));
        }
    }

    /// Adds `definition`. A second definition of one name is refused and
    /// leaves the registry as it was.
    pub fn register(&mut self, definition: TableDefinition) -> (result: Result<(), BridgeError>)
        ensures
            match result {
                Ok(_) => {
                    &&& !old(self)@.contains_key(definition.name@)
                    &&& final(self)@ == old(self)@.insert(definition.name@, definition@)
                },
                Err(e) => {
                    &&& old(self)@.contains_key(definition.name@)
                    &&& e@ == (BridgeErrorView::DuplicateTable { table: definition.name@ })
                    &&& final(self)@ == old(self)@
                },
            },
    {
        proof {
            use_type_invariant(&*self);
        }
        let found = self.position(definition.name.as_str());
        match found {
            Some(_) => Err(BridgeError::DuplicateTable { table: definition.name.clone() }),
            None => {
                let ghost before = *self;
                let ghost name = definition.name@;
                let ghost view = definition@;
                let mut tables: Vec<TableDefinition> = Vec::new();
                std::mem::swap(&mut self.tables, &mut tables);
                tables.push(definition);
                self.tables = tables;
                proof {
                    let n = before.tables.len() as int;
                    assert(self.tables[n].name@ == name);
                    assert forall|key: Seq<char>|
                        self.has(key) <==> (before.has(key) || key == name) by {
                        if before.has(key) {
                            assert(self.tables[before.index_of(key)].name@ == key);
                        }
                    }
                    assert forall|key: Seq<char>| self.has(key) implies #[trigger] self@[key]
                        == before@.insert(name, view)[key] by {
                        if key != name {
                            assert(self.index_of(key) == before.index_of(key));
                        }
                    }
                }
                Ok(())
            },
        }
    }

    /// The definition of the table named `name`.
    pub fn lookup(&self, name: &str) -> (result: Result<&TableDefinition, BridgeError>)
        ensures
            match result {
                Ok(definition) => self@.contains_key(name@) && definition@ == self@[name@],
                Err(e) => !self@.contains_key(name@) && e@ == (BridgeErrorView::UnknownTable {
                    table: name@,
                }),
            },
    {
        proof {
            use_type_invariant(self);
        }
        match self.position(name) {
            Some(i) => {
                assert(i == self.index_of(name@));
                Ok(&self.tables[i])
            },
            None => Err(BridgeError::UnknownTable { table: name.to_owned() }),
        }
    }

    /// Where the definition named `name` stands, if it is held.
    fn position(&self, name: &str) -> (found: Option<usize>)
        ensures
            found is Some <==> self.has(name@),
            found matches Some(i) ==> i < self.tables.len() && self.tables[i as int].name@
                == name@,
    {
        let wanted = name.to_owned();
        let mut i: usize = 0;
        while i < self.tables.len()
            invariant
                i <= self.tables.len(),
                wanted@ == name@,
                forall|k: int| 0 <= k < i ==> self.tables[k].name@ != name@,
            decreases self.tables.len() - i,
        {
            if self.tables[i].name == wanted {
                return Some(i);
            }
            i += 1;
        }
        None
    }
}

} // verus!
