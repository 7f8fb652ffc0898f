//! The declarations that the transformation produces: a derived interface
//! declaration and the blanket implementation that goes with it. Neither has
//! attributes or items; what they have is held here.

use vstd::prelude::*;
use crate::model::{views, Generics, GenericsView};

verus! {

/// One entry of a binding list: the value that `method` returns must satisfy
/// `target`.
#[derive(Debug, Clone, PartialEq, Eq)]
pub struct Binding {
    pub method: String,
    pub target: String,
}

pub struct BindingView {
    pub method: Seq<char>,
    pub target: Seq<char>,
}

impl View for Binding {
    type V = BindingView;

    open spec fn view(&self) -> BindingView {
        BindingView { method: self.method@, target: self.target@ }
    }
}

/// The source interface applied to its own generic arguments, followed by one
/// binding for each bindable method.
#[derive(Debug, Clone, PartialEq, Eq)]
pub struct Specialization {
    pub source: String,
    pub args: Vec<String>,
    pub bindings: Vec<Binding>,
}

pub struct SpecializationView {
    pub source: Seq<char>,
    pub args: Seq<Seq<char>>,
    pub bindings: Seq<BindingView>,
}

impl View for Specialization {
    type V = SpecializationView;

    open spec fn view(&self) -> SpecializationView {
        SpecializationView {
            source: self.source@,
            args: views(self.args@),
            bindings: views(self.bindings@),
        }
    }
}

/// A bound of a derived declaration: the specialized source interface, or a
/// capability named by its path.
#[derive(Debug, Clone, PartialEq, Eq)]
pub enum Bound {
    Specialized(Specialization),
    Capability(String),
}

pub enum BoundView {
    Specialized(SpecializationView),
    Capability(Seq<char>),
}

impl View for Bound {
    type V = BoundView;

    open spec fn view(&self) -> BoundView {
        match self {
            Bound::Specialized(s) => BoundView::Specialized(s@),
            Bound::Capability(path) => BoundView::Capability(path@),
        }
    }
}

/// The derived interface declaration. Its item list is empty and it carries
/// no attributes.
#[derive(Debug, Clone, PartialEq, Eq)]
pub struct DerivedTrait {
    pub vis: String,
    pub unsafety: bool,
    pub auto_token: bool,
    pub ident: String,
    pub generics: Generics,
    pub supertraits: Vec<Bound>,
}

pub struct DerivedTraitView {
    pub vis: Seq<char>,
    pub unsafety: bool,
    pub auto_token: bool,
    pub ident: Seq<char>,
    pub generics: GenericsView,
    pub supertraits: Seq<BoundView>,
}

impl View for DerivedTrait {
    type V = DerivedTraitView;

    open spec fn view(&self) -> DerivedTraitView {
        DerivedTraitView {
            vis: self.vis@,
            unsafety: self.unsafety,
            auto_token: self.auto_token,
            ident: self.ident@,
            generics: self.generics@,
            supertraits: views(self.supertraits@),
        }
    }
}

/// The blanket implementation of a derived interface. `generics` are those of
/// the source interface; the synthetic type parameter `synthetic`, bounded by
/// `bounds`, follows them in the parameter list. The implementation is for
/// `self_ty` and has no items.
#[derive(Debug, Clone, PartialEq, Eq)]
pub struct DerivedImpl {
    pub unsafety: bool,
    pub generics: Generics,
    pub synthetic: String,
    pub bounds: Vec<Bound>,
    pub trait_name: String,
    pub trait_args: Vec<String>,
    pub self_ty: String,
}

pub struct DerivedImplView {
    pub unsafety: bool,
    pub generics: GenericsView,
    pub synthetic: Seq<char>,
    pub bounds: Seq<BoundView>,
    pub trait_name: Seq<char>,
    pub trait_args: Seq<Seq<char>>,
    pub self_ty: Seq<char>,
}

impl View for DerivedImpl {
    type V = DerivedImplView;

    open spec fn view(&self) -> DerivedImplView {
        DerivedImplView {
            unsafety: self.unsafety,
            generics: self.generics@,
            synthetic: self.synthetic@,
            bounds: views(self.bounds@),
            trait_name: self.trait_name@,
            trait_args: views(self.trait_args@),
            self_ty: self.self_ty@,
        }
    }
}

/// What one transform request produces.
#[derive(Debug, Clone, PartialEq, Eq)]
pub struct DerivedPair {
    pub declaration: DerivedTrait,
    pub implementation: DerivedImpl,
}

pub struct DerivedPairView {
    pub declaration: DerivedTraitView,
    pub implementation: DerivedImplView,
}

impl View for DerivedPair {
    type V = DerivedPairView;

    open spec fn view(&self) -> DerivedPairView {
        DerivedPairView { declaration: self.declaration@, implementation: self.implementation@ }
    }
}

} // verus!
