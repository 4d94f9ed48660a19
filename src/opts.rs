//! What a caller asks a traversal to parse, and the parser arguments that
//! follow from it.
use std::path::PathBuf;
use vstd::prelude::*;

verus! {

/// A file system path; the library only carries it to the parser.
#[verifier::external_type_specification]
#[verifier::external_body]
pub struct ExPathBuf(PathBuf);

/// The configuration of one traversal.
pub struct Options {
    /// Report each node as it is met.
    pub debug: bool,
    /// How talkative the parser is: 0 for quiet.
    pub verbose: u8,
    /// The primary file to parse.
    pub input: PathBuf,
    /// Include paths handed to the parser.
    pub includes: Vec<String>,
}

/// The arguments that every parse starts with: C++11, syntax only.
pub open spec fn base_arguments() -> Seq<Seq<char>> {
    seq!["-x"@, "c++"@, "-std=c++11"@, "-fsyntax-only"@]
}

/// An `-I` argument pair for each include path, in order.
pub open spec fn include_arguments(includes: Seq<Seq<char>>) -> Seq<Seq<char>>
    decreases includes.len(),
{
    if includes.len() == 0 {
        Seq::empty()
    } else {
        include_arguments(includes.drop_last()) + seq!["-I"@, includes.last()]
    }
}

/// The characters of each string.
pub open spec fn string_views(s: Seq<String>) -> Seq<Seq<char>> {
    s.map_values(|x: String| x@)
}

impl Options {
    /// The arguments to hand the parser: the base arguments, then `-I` and
    /// the path for each include path.
    pub fn parser_arguments(&self) -> (r: Vec<String>)
        ensures
            string_views(r@) == base_arguments() + include_arguments(
                string_views(self.includes@),
            ),
    {
        let mut args: Vec<String> = Vec::new();
        args.push(String::from_str("-x"));
        args.push(String::from_str("c++"));
        args.push(String::from_str("-std=c++11"));
        args.push(String::from_str("-fsyntax-only"));
        assert(string_views(args@) =~= base_arguments());
        let mut i: usize = 0;
        while i < self.includes.len()
            invariant
                i <= self.includes@.len(),
                string_views(args@) == base_arguments() + include_arguments(
                    string_views(self.includes@.take(i as int)),
                ),
            decreases self.includes@.len() - i,
        {
            let ghost before = string_views(args@);
            args.push(String::from_str("-I"));
            args.push(self.includes[i].clone());
            proof {
                let prev = string_views(self.includes@.take(i as int));
                let next = string_views(self.includes@.take(i + 1));
                assert(next.drop_last() =~= prev);
                assert(next.last() == self.includes@[i as int]@);
                assert(string_views(args@) =~= before + seq!["-I"@, self.includes@[i as int]@]);
            }
            i += 1;
        }
        assert(self.includes@.take(i as int) =~= self.includes@);
        args
    }
}

} // verus!
