//! The data model: one sum type, described once per generation pass.

use vstd::prelude::*;

verus! {

/// The payload shape of one branch.
#[derive(Debug)]
pub enum Shape {
    /// No payload.
    Empty,
    /// An unnamed payload of the given arity. The arity is held as it was
    /// declared, and the engine never depends on it: a pair of parentheses
    /// with nothing between them is a positional payload of arity 0.
    Positional(usize),
    /// A named payload: its field identifiers, in declaration order. Only
    /// that the payload is named reaches the engine's output.
    Named(Vec<String>),
}

/// Mathematical value of a [`Shape`].
pub enum ShapeView {
    Empty,
    Positional(nat),
    Named(Seq<Seq<char>>),
}

impl View for Shape {
    type V = ShapeView;

    open spec fn view(&self) -> ShapeView {
        match self {
            Shape::Empty => ShapeView::Empty,
            Shape::Positional(arity) => ShapeView::Positional(*arity as nat),
            Shape::Named(fields) => ShapeView::Named(fields.deep_view()),
        }
    }
}

/// One named alternative of a sum type.
#[derive(Debug)]
pub struct Branch {
    /// The branch identifier, as written in the declaration.
    pub name: String,
    pub shape: Shape,
}

/// Mathematical value of a [`Branch`].
pub struct BranchView {
    pub name: Seq<char>,
    pub shape: ShapeView,
}

impl View for Branch {
    type V = BranchView;

    open spec fn view(&self) -> BranchView {
        BranchView { name: self.name@, shape: self.shape@ }
    }
}

/// The views of a sequence of branches, in order.
pub open spec fn branch_views(branches: Seq<Branch>) -> Seq<BranchView> {
    Seq::new(branches.len(), |i: int| branches[i]@)
}

/// The generic signature of a type, in the three renderings that reattach an
/// implementation block to it.
#[derive(Debug)]
pub struct GenericSignature {
    /// Every parameter as it stands when an implementation block is
    /// declared, bounds included.
    pub declaration_side: String,
    /// Every parameter as it stands when the type is named, bounds omitted.
    pub usage_side: String,
    /// The `where` predicates that the declaration carries apart from its
    /// parameter list.
    pub constraint: String,
}

/// Mathematical value of a [`GenericSignature`].
pub struct GenericSignatureView {
    pub declaration_side: Seq<char>,
    pub usage_side: Seq<char>,
    pub constraint: Seq<char>,
}

impl View for GenericSignature {
    type V = GenericSignatureView;

    open spec fn view(&self) -> GenericSignatureView {
        GenericSignatureView {
            declaration_side: self.declaration_side@,
            usage_side: self.usage_side@,
            constraint: self.constraint@,
        }
    }
}

/// A sum type: its name, its generic signature and its branches in
/// declaration order.
#[derive(Debug)]
pub struct SumType {
    pub name: String,
    pub generics: GenericSignature,
    pub branches: Vec<Branch>,
}

/// Mathematical value of a [`SumType`].
pub struct SumTypeView {
    pub name: Seq<char>,
    pub generics: GenericSignatureView,
    pub branches: Seq<BranchView>,
}

impl View for SumType {
    type V = SumTypeView;

    open spec fn view(&self) -> SumTypeView {
        SumTypeView {
            name: self.name@,
            generics: self.generics@,
            branches: branch_views(self.branches@),
        }
    }
}

impl SumTypeView {
    /// No two branches share a name. The host's type system enforces this
    /// before a declaration reaches the engine; the engine does not check it.
    pub open spec fn distinct_names(self) -> bool {
        forall|i: int, j: int|
            0 <= i < j < self.branches.len() ==> self.branches[i].name != self.branches[j].name
    }
}

/// What a declaration declares.
#[derive(Debug)]
pub enum Body {
    /// A sum type, with its branches in declaration order.
    Sum(Vec<Branch>),
    /// A fixed-shape record.
    Record,
    /// A union with overlapping storage.
    Union,
}

/// Mathematical value of a [`Body`].
pub enum BodyView {
    Sum(Seq<BranchView>),
    Record,
    Union,
}

impl View for Body {
    type V = BodyView;

    open spec fn view(&self) -> BodyView {
        match self {
            Body::Sum(branches) => BodyView::Sum(branch_views(branches@)),
            Body::Record => BodyView::Record,
            Body::Union => BodyView::Union,
        }
    }
}

/// A type declaration as the host's parser hands it over.
#[derive(Debug)]
pub struct Declaration {
    pub name: String,
    /// Where the type's name stands in the source.
    pub location: proc_macro2::Span,
    pub generics: GenericSignature,
    pub body: Body,
}

/// Mathematical value of a [`Declaration`].
pub struct DeclarationView {
    pub name: Seq<char>,
    pub location: proc_macro2::Span,
    pub generics: GenericSignatureView,
    pub body: BodyView,
}

impl View for Declaration {
    type V = DeclarationView;

    open spec fn view(&self) -> DeclarationView {
        DeclarationView {
            name: self.name@,
            location: self.location,
            generics: self.generics@,
            body: self.body@,
        }
    }
}

impl Declaration {
    /// Tells whether the declaration declares a sum type.
    pub fn declares_sum(&self) -> (yes: bool)
        ensures
            yes == (self@.body is Sum),
    {
        matches!(self.body, Body::Sum(_))
    }
}

impl DeclarationView {
    /// The sum type that a sum-type declaration declares.
    pub open spec fn sum_type(self) -> SumTypeView
        recommends
            self.body is Sum,
    {
        SumTypeView { name: self.name, generics: self.generics, branches: self.body->Sum_0 }
    }
}

/// The one failure of the engine: the declaration is not a sum type.
#[derive(Debug)]
pub struct InvalidTarget {
    /// Where the name of the offending type stands.
    pub location: proc_macro2::Span,
}

/// How the directive was applied to the declaration.
#[derive(Clone, Copy, Debug, PartialEq, Eq, Structural)]
pub enum Mode {
    /// The directive wraps the declaration: the output repeats it.
    Attachment,
    /// The directive observes a declaration that stays where it is.
    Annotation,
}

} // verus!
