use vstd::prelude::*;

verus! {

/// A resolved C type. `void` has no `Ty`: it is the absence of one.
#[derive(Debug, PartialEq, Eq)]
pub enum Ty {
    /// An integer type: whether it is signed, and its width in bits.
    Int(bool, usize),
    Bool,
    /// An array: its length when known, and its element type.
    Array(Option<usize>, Box<Ty>),
}

impl Ty {
    /// A structurally equal copy of this type.
    pub fn duplicate(&self) -> (r: Ty)
        ensures
            r == *self,
        decreases self,
    {
        match self {
            Ty::Int(signed, width) => Ty::Int(*signed, *width),
            Ty::Bool => Ty::Bool,
            Ty::Array(len, elem) => Ty::Array(*len, Box::new(elem.duplicate())),
        }
    }
}

impl Clone for Ty {
    fn clone(&self) -> (r: Ty)
        ensures
            r == *self,
    {
        self.duplicate()
    }
}

/// Why a syntax node could not be normalized. `index` is the position of the
/// offending node in the sequence that was being resolved.
#[derive(Debug, Clone, Copy, PartialEq, Eq, Structural)]
pub enum ResolveError {
    /// A specifier other than `int`, `unsigned`, `bool` or `void`.
    UnsupportedSpecifier { index: usize },
    /// `unsigned` after the first place of a multi-keyword sequence.
    UnsignedNotFirst { index: usize },
    /// A specifier that is not an integer type in a multi-keyword sequence.
    NotAnInteger { index: usize },
    /// A pointer suffix: pointer types are not modelled.
    PointerUnsupported { index: usize },
    /// A derived suffix other than an array.
    UnsupportedDerived { index: usize },
    /// An array size literal that does not read as a `usize`.
    BadArrayLength { index: usize },
    /// A declarator or expression that is not a bare identifier.
    NotAnIdentifier,
    /// A declaration whose number of declarators is not one.
    DeclaratorCount { count: usize },
    /// A variable declared `void`.
    VoidVariable,
    /// A function definition whose declarator has no parameter list.
    NoParameterList,
}

/// One variable declaration: its name and type.
#[derive(Debug, Clone, PartialEq, Eq)]
pub struct DeclInfo {
    pub name: String,
    pub ty: Ty,
}

/// A function signature. `ret_ty` is `None` for `void`; the parameters and
/// the body are the caller's own nodes, passed through untouched.
#[derive(Debug, Clone, PartialEq)]
pub struct FnInfo<P, B> {
    pub name: String,
    pub ret_ty: Option<Ty>,
    pub args: Vec<P>,
    pub body: B,
}

/// A named compile-time integer constant, shared with later stages.
#[derive(Debug, Clone, PartialEq, Eq)]
pub struct ConstIteration {
    pub name: String,
    pub val: i32,
}

} // verus!
