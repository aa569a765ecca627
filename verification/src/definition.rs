//! The type declaration that a derive is attached to, as plain values.

use vstd::prelude::*;

verus! {

/// The generic parameters of a declaration, split into the three places
/// where an impl repeats them. Each part is source text and may be empty.
#[derive(Clone, Debug, PartialEq, Eq)]
pub struct Generics {
    /// What follows `impl`: the parameters with their bounds, in angle brackets.
    pub impl_generics: String,
    /// What follows the type's name: the parameters' names, in angle brackets.
    pub ty_generics: String,
    /// The `where` clause, with the word `where`.
    pub where_clause: String,
}

/// The mathematical value of a [`Generics`].
pub struct GenericsView {
    pub impl_generics: Seq<char>,
    pub ty_generics: Seq<char>,
    pub where_clause: Seq<char>,
}

impl View for Generics {
    type V = GenericsView;

    open spec fn view(&self) -> GenericsView {
        GenericsView {
            impl_generics: self.impl_generics@,
            ty_generics: self.ty_generics@,
            where_clause: self.where_clause@,
        }
    }
}

/// What a declaration's body looks like.
#[derive(Clone, Debug, PartialEq, Eq)]
pub enum Shape {
    /// A struct with unnamed fields: the declared type of each, in order.
    Tuple(Vec<String>),
    /// A struct with named fields.
    Named,
    /// A struct without fields.
    Unit,
    /// An enum.
    Enum,
    /// A union.
    Union,
}

/// The mathematical value of a [`Shape`].
pub enum ShapeView {
    Tuple(Seq<Seq<char>>),
    Named,
    Unit,
    Enum,
    Union,
}

impl View for Shape {
    type V = ShapeView;

    open spec fn view(&self) -> ShapeView {
        match self {
            Shape::Tuple(types) => ShapeView::Tuple(types.deep_view()),
            Shape::Named => ShapeView::Named,
            Shape::Unit => ShapeView::Unit,
            Shape::Enum => ShapeView::Enum,
            Shape::Union => ShapeView::Union,
        }
    }
}

impl ShapeView {
    /// The declared type of the only field, where the shape is a tuple
    /// struct of exactly one field.
    pub open spec fn single_field(self) -> Option<Seq<char>> {
        match self {
            ShapeView::Tuple(types) => if types.len() == 1 {
                Some(types[0])
            } else {
                None
            },
            _ => None,
        }
    }
}

/// A type declaration: its name, its generic parameters and its shape.
#[derive(Clone, Debug, PartialEq, Eq)]
pub struct RawDefinition {
    pub name: String,
    pub generics: Generics,
    pub shape: Shape,
}

/// The mathematical value of a [`RawDefinition`].
pub struct RawDefinitionView {
    pub name: Seq<char>,
    pub generics: GenericsView,
    pub shape: ShapeView,
}

impl View for RawDefinition {
    type V = RawDefinitionView;

    open spec fn view(&self) -> RawDefinitionView {
        RawDefinitionView { name: self.name@, generics: self.generics@, shape: self.shape@ }
    }
}

} // verus!
