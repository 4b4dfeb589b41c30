use vstd::prelude::*;

verus! {

/// The shape an option value was expected to have.
#[derive(PartialEq, Eq, Structural, Clone, Copy, Debug)]
pub enum ValueShape {
    Bool,
    Identifier,
    DelegationTarget,
    AsyncMode,
}

/// Everything that can make the transformation of one declaration fail.
///
/// Each variant carries what locates the mistake: a parameter position,
/// an option key or a method name.
#[derive(PartialEq, Eq, Clone, Debug)]
pub enum EngineError {
    /// The function takes no parameter, so it has no dependency slot.
    MissingDependencyParameter { fn_ident: String },
    /// A receiver appears where only the dependency slot may stand.
    UnexpectedReceiverParameter { position: usize },
    /// A forwarded parameter binds a pattern rather than a plain identifier.
    NonIdentifierParameterPattern { position: usize },
    /// An option key that is not recognised.
    UnknownOption { name: String },
    /// An option key given twice.
    DuplicateOption { name: String },
    /// An option value of the wrong shape.
    InvalidOptionValue { name: String, expected: ValueShape },
    /// A function or module declaration without an interface name.
    MissingInterfaceName,
    /// Two grouped functions give the same interface method name.
    DuplicateMethodName { name: String },
    /// An implementation block claims an interface other than the one given.
    InterfaceMismatch { claimed: String },
    /// An implementation-block method matches no method of its interface.
    SignatureMismatch { method: String },
    /// The chosen mock library needs a surface name and none was given.
    MissingSurfaceName,
}

} // verus!
