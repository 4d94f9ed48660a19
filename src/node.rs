//! A parse-tree node as plain values.
//!
//! The external parser hands out nodes as handles into its own tree. The
//! library works on this copy of what it reads from a node: its kind, name,
//! type, location, linkage, storage class, the kind of its semantic parent
//! and its children, in the parser's order.
use crate::srclocation::SrcLocation;
use vstd::prelude::*;

verus! {

/// The node kinds that the classifier and the dispatcher tell apart.
#[derive(Debug, Clone, Copy, PartialEq, Eq, Structural)]
pub enum NodeKind {
    FunctionDecl,
    Method,
    Constructor,
    Destructor,
    StructDecl,
    ClassDecl,
    EnumDecl,
    UnionDecl,
    VarDecl,
    FieldDecl,
    CStyleCastExpr,
    TranslationUnit,
    /// Any kind that none of the above names.
    Other,
}

/// The type kinds that decide a variable's category.
#[derive(Debug, Clone, Copy, PartialEq, Eq, Structural)]
pub enum TypeKind {
    Pointer,
    BlockPointer,
    MemberPointer,
    LValueReference,
    RValueReference,
    ConstantArray,
    IncompleteArray,
    VariableArray,
    DependentSizedArray,
    /// Any other type kind.
    Other,
}

/// How far a declaration's storage is visible.
#[derive(Debug, Clone, Copy, PartialEq, Eq, Structural)]
pub enum Linkage {
    /// Local or stack storage.
    Automatic,
    /// Confined to this translation unit.
    Internal,
    /// External, but through an unnamed namespace.
    UniqueExternal,
    /// Visible from other translation units.
    External,
}

/// The storage class written on a declaration.
#[derive(Debug, Clone, Copy, PartialEq, Eq, Structural)]
pub enum StorageClass {
    /// No storage class is written.
    Unspecified,
    Auto,
    Register,
    Static,
    Extern,
    PrivateExtern,
    OpenClWorkGroupLocal,
}

/// What the parser resolved about a declaration's type.
#[derive(Debug, Clone, PartialEq)]
pub struct TypeInfo {
    pub kind: TypeKind,
    /// The type itself is `const`.
    pub is_const_qualified: bool,
    /// For a pointer or reference: whether the type it refers to is `const`;
    /// `None` where the type refers to nothing.
    pub pointee_const_qualified: Option<bool>,
    /// The type as the parser spells it, such as `const char [4]`.
    pub display_name: String,
}

/// One node of a parsed translation unit.
#[derive(Debug, PartialEq)]
pub struct Node {
    pub kind: NodeKind,
    pub name: Option<String>,
    /// Where the node stands in a file; `None` where the parser gives no file.
    pub location: Option<SrcLocation>,
    /// The node stands in the primary file that was parsed.
    pub in_main_file: bool,
    pub ty: Option<TypeInfo>,
    /// The storage class of the node's canonical declaration.
    pub canonical_storage_class: Option<StorageClass>,
    /// The linkage of the node's canonical declaration.
    pub canonical_linkage: Option<Linkage>,
    /// The kind of the scope that owns the node after name resolution.
    pub semantic_parent_kind: Option<NodeKind>,
    pub children: Vec<Node>,
}

impl Node {
    /// The node's name as characters; an unnamed node has the empty name.
    pub open spec fn name_view(&self) -> Seq<char> {
        match self.name {
            Some(n) => n@,
            None => Seq::empty(),
        }
    }

    /// The node's name, or the empty string for an unnamed node.
    pub fn name_or_empty(&self) -> (r: String)
        ensures
            r@ == self.name_view(),
    {
        match &self.name {
            Some(n) => n.clone(),
            None => String::new(),
        }
    }
}

} // verus!
