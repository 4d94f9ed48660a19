//! Which observers a caller registered, and what they receive.
use crate::cast_context::CastContext;
use crate::complex_context::{ComplexContext, ComplexView};
use crate::fn_context::{FnContext, FnView};
use crate::srclocation::LocationView;
use crate::varcontext::{VarContext, VarView};
use vstd::prelude::*;

verus! {

/// The set of observers that a traversal reports to, one per entity kind.
/// A kind whose observer is absent is not reported.
#[derive(Debug, Clone, Copy, PartialEq, Eq, Structural)]
pub struct Callback {
    pub var: bool,
    pub fun: bool,
    pub cast: bool,
    pub complex: bool,
}

/// A registration of the one observer that takes descriptors of type `T`.
pub trait TCallback<T>: Sized {
    /// The registration that `new` makes.
    spec fn spec_new() -> Self;

    fn new() -> (r: Self)
        ensures
            r == Self::spec_new(),
    ;
}

impl TCallback<VarContext> for Callback {
    open spec fn spec_new() -> Callback {
        Callback { var: true, fun: false, cast: false, complex: false }
    }

    fn new() -> (r: Callback) {
        Callback { var: true, fun: false, cast: false, complex: false }
    }
}

impl TCallback<FnContext> for Callback {
    open spec fn spec_new() -> Callback {
        Callback { var: false, fun: true, cast: false, complex: false }
    }

    fn new() -> (r: Callback) {
        Callback { var: false, fun: true, cast: false, complex: false }
    }
}

impl TCallback<CastContext> for Callback {
    open spec fn spec_new() -> Callback {
        Callback { var: false, fun: false, cast: true, complex: false }
    }

    fn new() -> (r: Callback) {
        Callback { var: false, fun: false, cast: true, complex: false }
    }
}

impl TCallback<ComplexContext> for Callback {
    open spec fn spec_new() -> Callback {
        Callback { var: false, fun: false, cast: false, complex: true }
    }

    fn new() -> (r: Callback) {
        Callback { var: false, fun: false, cast: false, complex: true }
    }
}

/// One classified node, tagged with the observer it is meant for.
#[derive(Debug, Clone, PartialEq)]
pub enum Descriptor {
    Var(VarContext),
    Fun(FnContext),
    Cast(CastContext),
    Complex(ComplexContext),
}

/// What a [`Descriptor`] means.
pub enum DescriptorView {
    Var(VarView),
    Fun(FnView),
    Cast(LocationView),
    Complex(ComplexView),
}

impl View for Descriptor {
    type V = DescriptorView;

    open spec fn view(&self) -> DescriptorView {
        match self {
            Descriptor::Var(v) => DescriptorView::Var(v@),
            Descriptor::Fun(f) => DescriptorView::Fun(f@),
            Descriptor::Cast(c) => DescriptorView::Cast(c.location@),
            Descriptor::Complex(c) => DescriptorView::Complex(c@),
        }
    }
}

/// The meaning of a sequence of descriptors.
pub open spec fn views(s: Seq<Descriptor>) -> Seq<DescriptorView> {
    s.map_values(|d: Descriptor| d@)
}

} // verus!
