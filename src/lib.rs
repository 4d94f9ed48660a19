//! Naming-convention audit of C++ declarations.
//!
//! The library classifies declarations of a parsed translation unit into
//! compact descriptors, walks the tree depth-first to route them to the
//! observers that a caller registered, and checks variable names against a
//! naming policy derived from each declaration's role.

mod callback;
mod cast_context;
mod complex_context;
mod dispatch;
mod fn_context;
mod naming;
mod node;
mod opts;
mod srclocation;
mod varcontext;

pub use callback::{views, Callback, Descriptor, DescriptorView, TCallback};
pub use cast_context::CastContext;
pub use complex_context::{
    complex_descriptor, complex_type_of, get_complex_type, ComplexContext, ComplexType, ComplexView,
};
pub use dispatch::{
    cast_sites, children_casts, children_reports, dispatch, in_primary_file, lemma_classification_is_pure,
    lemma_each_cast_reported_once, own_report, subtree_casts, subtree_reports,
};
pub use fn_context::{fn_descriptor, fn_type_of, is_fn_type, FnContext, FnType, FnView};
pub use naming::{
    anchored, check_ra_nc_var, constant_body, is_constant, lemma_constants_are_upper_snake,
    lemma_free_values_are_lower_camel, lemma_members_take_prefix, lemma_pointers_take_p, lower_camel_body,
    member_prefix, name_verdict, pascal_body, regex_outcome, shape_body, sigil_text, standard_policy,
    CaseShape, CategoryRule, NamingPolicy, Sigil,
};
pub use node::{Linkage, Node, NodeKind, StorageClass, TypeInfo, TypeKind};
pub use opts::{base_arguments, include_arguments, string_views, Options};
pub use srclocation::{LocationView, SrcLocation};
pub use varcontext::{
    category_of, category_of_type, const_marker, contains_const_marker, has_const_marker, is_const_of,
    is_member_of, is_record_kind, is_static_of, is_var_kind, var_descriptor, VarContext, VarContextType,
    VarView,
};
