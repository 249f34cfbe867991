//! The parsed form of an annotated item, as the host compiler hands it over.
use vstd::prelude::*;

verus! {

/// A source range, in the host compiler's byte positions.
#[derive(Clone, Copy, Debug, PartialEq, Eq, Structural)]
pub struct Span {
    pub lo: u32,
    pub hi: u32,
}

/// The receiver of a method as it was written.
#[derive(Clone, Debug)]
pub enum Receiver {
    /// No receiver: a static method.
    Absent,
    /// `&self`, `&mut self`, `&'a self` or `&'a mut self`.
    Ref { lifetime: Option<String>, mutable: bool },
    /// `self` or `mut self`: the method takes ownership.
    Value,
    /// `self: T` for some explicit type `T`, such as `Box<Self>`.
    Explicit,
}

/// One segment of a type path, with the generic arguments written on it.
#[derive(Clone, Debug)]
pub struct PathSegment {
    pub ident: String,
    pub lifetimes: Vec<String>,
    pub types: Vec<String>,
}

/// A type written as a path, such as `foo::Bar` or `::std::Vec<u8>`.
#[derive(Clone, Debug)]
pub struct TypePath {
    /// The path starts at the crate root (`::foo`).
    pub global: bool,
    pub segments: Vec<PathSegment>,
    /// The path carries trait bounds.
    pub bounded: bool,
}

/// The shape of a type at a parameter or return position.
#[derive(Clone, Debug)]
pub enum TypeKind {
    Path(TypePath),
    /// Any other shape: a reference, a tuple, a function type, and so on.
    Other,
}

#[derive(Clone, Debug)]
pub struct TypeExpr {
    pub kind: TypeKind,
    pub span: Span,
}

/// A method declared inside an impl block.
#[derive(Clone, Debug)]
pub struct Method {
    pub ident: String,
    pub public: bool,
    pub receiver: Receiver,
    /// The parameters after the receiver, in declaration order.
    pub params: Vec<TypeExpr>,
    /// The declared return type; `None` when the method returns nothing.
    pub ret: Option<TypeExpr>,
    pub span: Span,
}

#[derive(Clone, Debug)]
pub struct ImplBlock {
    /// The implemented trait, for `impl Trait for Type`.
    pub trait_name: Option<String>,
    pub methods: Vec<Method>,
}

#[derive(Clone, Debug)]
pub enum ItemKind {
    Impl(ImplBlock),
    /// Any item that is not an impl block.
    Other,
}

/// The item that carries the marker attribute.
#[derive(Clone, Debug)]
pub struct Item {
    /// The name of the item; for an impl block, the implemented type.
    pub ident: String,
    pub kind: ItemKind,
    pub span: Span,
}

} // verus!
