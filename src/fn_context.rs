//! Function descriptors.
use crate::node::{Node, NodeKind};
use crate::srclocation::{LocationView, SrcLocation};
use vstd::prelude::*;

verus! {

/// The role of a function declaration.
#[derive(Debug, Clone, Copy, PartialEq, Eq, Structural)]
pub enum FnType {
    Function,
    Method,
    Ctor,
    Dtor,
}

/// A function declaration: its name, role and location.
#[derive(Debug, Clone, PartialEq)]
pub struct FnContext {
    pub name: String,
    pub fn_type: FnType,
    pub location: SrcLocation,
}

/// What a [`FnContext`] means, with its strings as characters.
pub struct FnView {
    pub name: Seq<char>,
    pub fn_type: FnType,
    pub location: LocationView,
}

impl View for FnContext {
    type V = FnView;

    open spec fn view(&self) -> FnView {
        FnView { name: self.name@, fn_type: self.fn_type, location: self.location@ }
    }
}

/// The role that a node kind stands for, if it is a function kind.
pub open spec fn fn_type_of(kind: NodeKind) -> Option<FnType> {
    match kind {
        NodeKind::FunctionDecl => Some(FnType::Function),
        NodeKind::Method => Some(FnType::Method),
        NodeKind::Constructor => Some(FnType::Ctor),
        NodeKind::Destructor => Some(FnType::Dtor),
        _ => None,
    }
}

/// The descriptor of a function node.
pub open spec fn fn_descriptor(node: Node) -> FnView {
    FnView {
        name: node.name_view(),
        fn_type: fn_type_of(node.kind)->Some_0,
        location: node.location->Some_0@,
    }
}

/// The role of a function kind; `None` for every other kind.
pub fn is_fn_type(kind: &NodeKind) -> (r: Option<FnType>)
    ensures
        r == fn_type_of(*kind),
{
    match kind {
        NodeKind::FunctionDecl => Some(FnType::Function),
        NodeKind::Method => Some(FnType::Method),
        NodeKind::Constructor => Some(FnType::Ctor),
        NodeKind::Destructor => Some(FnType::Dtor),
        _ => None,
    }
}

impl FnContext {
    /// Classifies a function node; an unnamed one gets the empty name.
    pub fn from(entity: &Node) -> (r: Self)
        requires
            fn_type_of(entity.kind) is Some,
            entity.location is Some,
        ensures
            r@ == fn_descriptor(*entity),
    {
        let fn_type = match is_fn_type(&entity.kind) {
            Some(t) => t,
            None => unreached(),
        };
        FnContext {
            name: entity.name_or_empty(),
            fn_type,
            location: SrcLocation::from(entity),
        }
    }
}

} // verus!
