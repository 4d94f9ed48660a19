//! Aggregate type descriptors: classes, structs, enums and unions.
use crate::node::{Node, NodeKind};
use crate::srclocation::{LocationView, SrcLocation};
use vstd::prelude::*;

verus! {

/// The kind of an aggregate type declaration.
#[derive(Debug, Clone, Copy, PartialEq, Eq, Structural)]
pub enum ComplexType {
    Class,
    Enum,
    Struct,
    Union,
}

/// An aggregate type declaration: its name, kind and location.
#[derive(Debug, Clone, PartialEq)]
pub struct ComplexContext {
    pub name: String,
    pub c_type: ComplexType,
    pub location: SrcLocation,
}

/// What a [`ComplexContext`] means, with its strings as characters.
pub struct ComplexView {
    pub name: Seq<char>,
    pub c_type: ComplexType,
    pub location: LocationView,
}

impl View for ComplexContext {
    type V = ComplexView;

    open spec fn view(&self) -> ComplexView {
        ComplexView { name: self.name@, c_type: self.c_type, location: self.location@ }
    }
}

/// The aggregate kind that a node kind stands for, if any.
pub open spec fn complex_type_of(kind: NodeKind) -> Option<ComplexType> {
    match kind {
        NodeKind::StructDecl => Some(ComplexType::Struct),
        NodeKind::ClassDecl => Some(ComplexType::Class),
        NodeKind::EnumDecl => Some(ComplexType::Enum),
        NodeKind::UnionDecl => Some(ComplexType::Union),
        _ => None,
    }
}

/// The descriptor of an aggregate node.
pub open spec fn complex_descriptor(node: Node) -> ComplexView {
    ComplexView {
        name: node.name_view(),
        c_type: complex_type_of(node.kind)->Some_0,
        location: node.location->Some_0@,
    }
}

/// The aggregate kind of a node kind; `None` for every other kind.
pub fn get_complex_type(kind: &NodeKind) -> (r: Option<ComplexType>)
    ensures
        r == complex_type_of(*kind),
{
    match kind {
        NodeKind::StructDecl => Some(ComplexType::Struct),
        NodeKind::ClassDecl => Some(ComplexType::Class),
        NodeKind::EnumDecl => Some(ComplexType::Enum),
        NodeKind::UnionDecl => Some(ComplexType::Union),
        _ => None,
    }
}

impl ComplexContext {
    /// Classifies an aggregate node; an anonymous one gets the empty name.
    pub fn from(entity: &Node) -> (r: Self)
        requires
            complex_type_of(entity.kind) is Some,
            entity.location is Some,
        ensures
            r@ == complex_descriptor(*entity),
    {
        let c_type = match get_complex_type(&entity.kind) {
            Some(t) => t,
            None => unreached(),
        };
        ComplexContext {
            name: entity.name_or_empty(),
            c_type,
            location: SrcLocation::from(entity),
        }
    }
}

} // verus!
