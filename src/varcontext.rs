//! Variable and field descriptors, and how a node is classified into one.
use crate::node::{Linkage, Node, NodeKind, StorageClass, TypeKind};
use crate::srclocation::{LocationView, SrcLocation};
use vstd::prelude::*;

verus! {

/// The category of a variable's declared type.
#[derive(Debug, Clone, Copy, PartialEq, Eq, Structural)]
pub enum VarContextType {
    Value,
    Ptr,
    Ref,
    Array,
}

/// A variable or field declaration, as the naming policy sees it.
#[derive(Debug, Clone, PartialEq)]
pub struct VarContext {
    pub name: String,
    pub var_type: VarContextType,
    pub is_member: bool,
    pub is_const: bool,
    pub is_static: bool,
    pub src_location: SrcLocation,
}

/// What a [`VarContext`] means, with its strings as characters.
pub struct VarView {
    pub name: Seq<char>,
    pub var_type: VarContextType,
    pub is_member: bool,
    pub is_const: bool,
    pub is_static: bool,
    pub src_location: LocationView,
}

impl View for VarContext {
    type V = VarView;

    open spec fn view(&self) -> VarView {
        VarView {
            name: self.name@,
            var_type: self.var_type,
            is_member: self.is_member,
            is_const: self.is_const,
            is_static: self.is_static,
            src_location: self.src_location@,
        }
    }
}

/// The category that a type kind puts a variable in.
pub open spec fn category_of_type(kind: TypeKind) -> VarContextType {
    match kind {
        TypeKind::Pointer | TypeKind::BlockPointer | TypeKind::MemberPointer => VarContextType::Ptr,
        TypeKind::LValueReference | TypeKind::RValueReference => VarContextType::Ref,
        TypeKind::ConstantArray
        | TypeKind::IncompleteArray
        | TypeKind::VariableArray
        | TypeKind::DependentSizedArray => VarContextType::Array,
        TypeKind::Other => VarContextType::Value,
    }
}

/// A node's category; a node with no resolved type is a value.
pub open spec fn category_of(node: Node) -> VarContextType {
    match node.ty {
        Some(t) => category_of_type(t.kind),
        None => VarContextType::Value,
    }
}

/// The text searched for in the spelling of an array type.
pub open spec fn const_marker() -> Seq<char> {
    seq!['c', 'o', 'n', 's', 't']
}

/// `s` holds the const marker somewhere.
pub open spec fn contains_const_marker(s: Seq<char>) -> bool {
    exists|i: int| 0 <= i && i + 5 <= s.len() && #[trigger] s.subrange(i, i + 5) == const_marker()
}

/// Whether a node of the given category counts as `const`.
///
/// A value is `const` when its type is; a pointer or a reference when the
/// type it refers to is. For an array the parser's element qualifiers are not
/// to be relied on, so the spelling of the type is searched for the marker
/// instead. That is an approximation: a name that merely holds the marker
/// (`constant_t [2]`) also counts.
pub open spec fn is_const_of(node: Node, category: VarContextType) -> bool {
    match node.ty {
        None => false,
        Some(t) => match category {
            VarContextType::Value => t.is_const_qualified,
            VarContextType::Ptr | VarContextType::Ref => t.pointee_const_qualified == Some(true),
            VarContextType::Array => contains_const_marker(t.display_name@),
        },
    }
}

/// A class or struct body.
pub open spec fn is_record_kind(kind: NodeKind) -> bool {
    kind == NodeKind::StructDecl || kind == NodeKind::ClassDecl
}

/// A node is a member when it is a field, when its lexical parent is a class
/// or struct body, or when its semantic parent is one (an out-of-line
/// definition such as `const int C::V = 1;`).
pub open spec fn is_member_of(node: Node, parent: Node) -> bool {
    ||| node.kind == NodeKind::FieldDecl
    ||| is_record_kind(parent.kind)
    ||| (node.semantic_parent_kind matches Some(k) && is_record_kind(k))
}

/// A node is static when its canonical declaration says `static`, or else
/// when that declaration has internal linkage.
pub open spec fn is_static_of(node: Node) -> bool {
    node.canonical_storage_class == Some(StorageClass::Static) || node.canonical_linkage == Some(
        Linkage::Internal,
    )
}

/// The kinds that the variable classifier accepts.
pub open spec fn is_var_kind(kind: NodeKind) -> bool {
    kind == NodeKind::VarDecl || kind == NodeKind::FieldDecl
}

/// The descriptor of a variable or field node under its lexical parent.
pub open spec fn var_descriptor(node: Node, parent: Node) -> VarView {
    VarView {
        name: node.name_view(),
        var_type: category_of(node),
        is_member: is_member_of(node, parent),
        is_const: is_const_of(node, category_of(node)),
        is_static: is_static_of(node),
        src_location: match node.location {
            Some(l) => l@,
            None => LocationView { file: Seq::empty(), line_no: 0, column: 0 },
        },
    }
}

impl VarContextType {
    /// The category of a node's declared type: pointer kinds give `Ptr`,
    /// reference kinds `Ref`, array kinds `Array`, everything else `Value`.
    pub fn from(entity: &Node) -> (r: Self)
        ensures
            r == category_of(*entity),
    {
        match &entity.ty {
            None => VarContextType::Value,
            Some(t) => match t.kind {
                TypeKind::Pointer | TypeKind::BlockPointer | TypeKind::MemberPointer => {
                    VarContextType::Ptr
                },
                TypeKind::LValueReference | TypeKind::RValueReference => VarContextType::Ref,
                TypeKind::ConstantArray
                | TypeKind::IncompleteArray
                | TypeKind::VariableArray
                | TypeKind::DependentSizedArray => VarContextType::Array,
                TypeKind::Other => VarContextType::Value,
            },
        }
    }
}

/// Whether `s` holds the const marker; see [`is_const_of`].
pub fn has_const_marker(s: &str) -> (r: bool)
    ensures
        r == contains_const_marker(s@),
{
    let n = s.unicode_len();
    let mut i: usize = 0;
    while 5 <= n - i
        invariant
            n == s@.len(),
            i <= n,
            forall|j: int| 0 <= j < i ==> #[trigger] s@.subrange(j, j + 5) != const_marker(),
        decreases n - i,
    {
        if s.get_char(i) == 'c' && s.get_char(i + 1) == 'o' && s.get_char(i + 2) == 'n'
            && s.get_char(i + 3) == 's' && s.get_char(i + 4) == 't' {
            assert(s@.subrange(i as int, i + 5) =~= const_marker());
            return true;
        }
        assert(s@.subrange(i as int, i + 5)[0] == s@[i as int]);
        assert(s@.subrange(i as int, i + 5)[1] == s@[i + 1]);
        assert(s@.subrange(i as int, i + 5)[2] == s@[i + 2]);
        assert(s@.subrange(i as int, i + 5)[3] == s@[i + 3]);
        assert(s@.subrange(i as int, i + 5)[4] == s@[i + 4]);
        i += 1;
    }
    proof {
        assert forall|j: int| 0 <= j && j + 5 <= s@.len() implies #[trigger] s@.subrange(j, j + 5)
            != const_marker() by {
            assert(j < i);
        }
    }
    false
}

/// Whether a variable node of the given category is `const`.
fn is_const_type(entity: &Node, var_type: &VarContextType) -> (r: bool)
    ensures
        r == is_const_of(*entity, *var_type),
{
    match &entity.ty {
        None => false,
        Some(t) => match var_type {
            VarContextType::Value => t.is_const_qualified,
            VarContextType::Ptr | VarContextType::Ref => match t.pointee_const_qualified {
                Some(c) => c,
                None => false,
            },
            VarContextType::Array => has_const_marker(t.display_name.as_str()),
        },
    }
}

fn is_record(kind: NodeKind) -> (r: bool)
    ensures
        r == is_record_kind(kind),
{
    match kind {
        NodeKind::StructDecl | NodeKind::ClassDecl => true,
        _ => false,
    }
}

/// Whether a node is a class member, judged by its own kind, its lexical
/// parent and its semantic parent.
fn is_member_variable(entity: &Node, parent: &Node) -> (r: bool)
    ensures
        r == is_member_of(*entity, *parent),
{
    let is_semantic_parent_a_record = match entity.semantic_parent_kind {
        Some(k) => is_record(k),
        None => false,
    };
    let is_field = match entity.kind {
        NodeKind::FieldDecl => true,
        _ => false,
    };
    is_field || is_record(parent.kind) || is_semantic_parent_a_record
}

/// Whether a node's canonical declaration is static or has internal linkage.
fn is_static_type(entity: &Node) -> (r: bool)
    ensures
        r == is_static_of(*entity),
{
    let explicit_static = match entity.canonical_storage_class {
        Some(StorageClass::Static) => true,
        _ => false,
    };
    if explicit_static {
        return true;
    }
    match entity.canonical_linkage {
        Some(Linkage::Internal) => true,
        _ => false,
    }
}

impl VarContext {
    /// Classifies a variable or field node, given its lexical parent.
    pub fn from(entity: &Node, parent: &Node) -> (r: Self)
        requires
            is_var_kind(entity.kind),
            entity.location is Some,
        ensures
            r@ == var_descriptor(*entity, *parent),
    {
        let var_type = VarContextType::from(entity);
        let name = entity.name_or_empty();
        let is_const = is_const_type(entity, &var_type);
        VarContext {
            name,
            var_type,
            is_member: is_member_variable(entity, parent),
            is_const,
            is_static: is_static_type(entity),
            src_location: SrcLocation::from(entity),
        }
    }
}

} // verus!
