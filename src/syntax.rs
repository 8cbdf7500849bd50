//! The parts of a parsed C syntax tree that normalization reads. Parameter
//! declarations (`P`) and function bodies (`B`) are the caller's own values.
use vstd::prelude::*;

verus! {

#[derive(Debug, Clone, Copy, PartialEq, Eq, Structural)]
pub enum TypeSpecifier {
    Void,
    Char,
    Short,
    Int,
    Long,
    Signed,
    Unsigned,
    Bool,
    /// Any other type specifier (floating, complex, struct, enum, typedef name, ...).
    Other,
}

#[derive(Debug, Clone, Copy, PartialEq, Eq, Structural)]
pub enum DeclarationSpecifier {
    StorageClass,
    TypeSpecifier(TypeSpecifier),
    TypeQualifier,
    Function,
    Alignment,
    Extension,
}

#[derive(Debug, Clone, Copy, PartialEq, Eq, Structural)]
pub enum SpecifierQualifier {
    TypeSpecifier(TypeSpecifier),
    TypeQualifier,
    Extension,
}

#[derive(Debug, Clone, PartialEq, Eq)]
pub enum Constant {
    /// An integer literal, by the digits of its number as written.
    Integer(String),
    Other,
}

#[derive(Debug, Clone, PartialEq, Eq)]
pub enum Expression {
    Identifier(String),
    Constant(Constant),
    Other,
}

#[derive(Debug, Clone, PartialEq, Eq)]
pub enum ArraySize {
    /// `[]`
    Unknown,
    /// `[*]`
    VariableUnknown,
    /// `[e]`
    VariableExpression(Expression),
    /// `[static e]`
    StaticExpression(Expression),
}

#[derive(Debug, Clone, PartialEq)]
pub enum DerivedDeclarator<P> {
    Pointer,
    Array(ArraySize),
    /// A function suffix, with its parameter declarations in order.
    Function(Vec<P>),
    KRFunction,
    Block,
}

#[derive(Debug, Clone, PartialEq, Eq)]
pub enum DeclaratorKind {
    Abstract,
    Identifier(String),
    /// A parenthesized inner declarator.
    Nested,
}

#[derive(Debug, Clone, PartialEq)]
pub struct Declarator<P> {
    pub kind: DeclaratorKind,
    pub derived: Vec<DerivedDeclarator<P>>,
}

#[derive(Debug, Clone, PartialEq)]
pub struct Declaration<P> {
    pub specifiers: Vec<DeclarationSpecifier>,
    pub declarators: Vec<Declarator<P>>,
}

#[derive(Debug, Clone, PartialEq)]
pub struct FunctionDefinition<P, B> {
    pub specifiers: Vec<DeclarationSpecifier>,
    pub declarator: Declarator<P>,
    pub statement: B,
}

} // verus!
