use crate::node::Node;
use vstd::prelude::*;

verus! {

/// A position in a source file: the file's path, a line and a column.
#[derive(Debug, Clone, PartialEq)]
pub struct SrcLocation {
    pub file: String,
    pub line_no: u32,
    pub column: u32,
}

/// What a [`SrcLocation`] means: its path as characters, its line and column.
pub struct LocationView {
    pub file: Seq<char>,
    pub line_no: u32,
    pub column: u32,
}

impl View for SrcLocation {
    type V = LocationView;

    open spec fn view(&self) -> LocationView {
        LocationView { file: self.file@, line_no: self.line_no, column: self.column }
    }
}

impl SrcLocation {
    /// The location of a node that has one.
    pub fn from(entity: &Node) -> (r: SrcLocation)
        requires
            entity.location is Some,
        ensures
            entity.location == Some(r),
    {
        match &entity.location {
            Some(l) => l.duplicate(),
            None => unreached(),
        }
    }

    /// A copy of this location, equal to it field by field.
    pub fn duplicate(&self) -> (r: SrcLocation)
        ensures
            r == *self,
    {
        SrcLocation { file: self.file.clone(), line_no: self.line_no, column: self.column }
    }
}

} // verus!
