//! The ways in which a translation, a registration or an execution can fail.

use vstd::prelude::*;

verus! {

/// Why an operation gave up. Every failure ends the attempt that met it;
/// nothing is retried and no partial statement is handed out.
#[derive(Clone, Debug, PartialEq, Eq)]
pub enum BridgeError {
    /// The text is not an insert, update or delete statement of a supported
    /// form. Carries the text.
    UnrecognizedVerb { fragment: String },
    /// The text has no list of bound values, or the list is malformed.
    /// Carries the text.
    MissingBindings { fragment: String },
    /// The statement binds `assignments` written columns and `conditions`
    /// selecting columns, but `literals` values are bound; or one of its
    /// placeholders has a number for which there is no value.
    BindingArityMismatch { assignments: usize, conditions: usize, literals: usize },
    /// No table of this name is registered.
    UnknownTable { table: String },
    /// A table of this name is registered already.
    DuplicateTable { table: String },
    /// The value bound to `column` does not fit the column's declared type.
    TypeConversionError { column: String, literal: String },
    /// The target store refused a request.
    ExecutionError { message: String },
}

/// Mathematical view of a [`BridgeError`].
pub enum BridgeErrorView {
    UnrecognizedVerb { fragment: Seq<char> },
    MissingBindings { fragment: Seq<char> },
    BindingArityMismatch { assignments: nat, conditions: nat, literals: nat },
    UnknownTable { table: Seq<char> },
    DuplicateTable { table: Seq<char> },
    TypeConversionError { column: Seq<char>, literal: Seq<char> },
    ExecutionError { message: Seq<char> },
}

impl View for BridgeError {
    type V = BridgeErrorView;

    open spec fn view(&self) -> BridgeErrorView {
        match self {
            BridgeError::UnrecognizedVerb { fragment } => BridgeErrorView::UnrecognizedVerb {
                fragment: fragment@,
            },
            BridgeError::MissingBindings { fragment } => BridgeErrorView::MissingBindings {
                fragment: fragment@,
            },
            BridgeError::BindingArityMismatch {
                assignments,
                conditions,
                literals,
            } => BridgeErrorView::BindingArityMismatch {
                assignments: *assignments as nat,
                conditions: *conditions as nat,
                literals: *literals as nat,
            },
            BridgeError::UnknownTable { table } => BridgeErrorView::UnknownTable { table: table@ },
            BridgeError::DuplicateTable { table } => BridgeErrorView::DuplicateTable {
                table: table@,
            },
            BridgeError::TypeConversionError {
                column,
                literal,
            } => BridgeErrorView::TypeConversionError { column: column@, literal: literal@ },
            BridgeError::ExecutionError { message } => BridgeErrorView::ExecutionError {
                message: message@,
            },
        }
    }
}

} // verus!
