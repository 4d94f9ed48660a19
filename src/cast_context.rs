//! The site of a C-style cast, a construct the policy discourages.
use crate::srclocation::SrcLocation;
use vstd::prelude::*;

verus! {

/// Where a C-style cast was written.
#[derive(Debug, Clone, PartialEq)]
pub struct CastContext {
    pub location: SrcLocation,
}

} // verus!
