//! Directory traversal module
//!
//! Holds the directory walker and the patterns of paths that are skipped by default.
use vstd::prelude::*;

use super::text::texts;

verus! {

broadcast use vstd::string::group_string_axioms;

/// Walks directories and processes files
pub struct DirectoryWalker {}

impl DirectoryWalker {
    /// Creates a new directory walker
    pub fn new() -> (w: Self) {
        DirectoryWalker {  }
    }

    /// The patterns of paths that are skipped by default.
    pub fn default_ignore_patterns() -> (v: Vec<String>)
        ensures
            texts(v@) == default_ignore_list(),
    {
        let mut v: Vec<String> = Vec::new();
        proof {
            assert(texts(v@) =~= Seq::<Seq<char>>::empty());
        }
        add_pattern(&mut v, ".git");
        add_pattern(&mut v, ".svn");
        add_pattern(&mut v, ".hg");
        add_pattern(&mut v, "node_modules");
        add_pattern(&mut v, "target");
        add_pattern(&mut v, "*.png");
        add_pattern(&mut v, "*.jpg");
        add_pattern(&mut v, "*.jpeg");
        add_pattern(&mut v, "*.gif");
        add_pattern(&mut v, "*.ico");
        add_pattern(&mut v, "*.zip");
        add_pattern(&mut v, "*.tar");
        add_pattern(&mut v, "*.gz");
        add_pattern(&mut v, "*.so");
        add_pattern(&mut v, "*.dylib");
        add_pattern(&mut v, "*.dll");
        add_pattern(&mut v, "*.exe");
        add_pattern(&mut v, "*.bin");
        add_pattern(&mut v, "*.pdf");
        v
    }
}

impl Default for DirectoryWalker {
    fn default() -> (w: Self) {
        Self::new()
    }
}

/// The patterns of paths that are skipped unless configured otherwise: version control
/// and build directories, and binary file types.
pub open spec fn default_ignore_list() -> Seq<Seq<char>> {
    Seq::empty()
        .push(".git"@)
        .push(".svn"@)
        .push(".hg"@)
        .push("node_modules"@)
        .push("target"@)
        .push("*.png"@)
        .push("*.jpg"@)
        .push("*.jpeg"@)
        .push("*.gif"@)
        .push("*.ico"@)
        .push("*.zip"@)
        .push("*.tar"@)
        .push("*.gz"@)
        .push("*.so"@)
        .push("*.dylib"@)
        .push("*.dll"@)
        .push("*.exe"@)
        .push("*.bin"@)
        .push("*.pdf"@)
}

/// Appends `pattern` to a list of patterns.
fn add_pattern(v: &mut Vec<String>, pattern: &str)
    ensures
        texts(final(v)@) == texts(old(v)@).push(pattern@),
{
    v.push(pattern.to_string());
    proof {
        assert(texts(v@) =~= texts(old(v)@).push(pattern@));
    }
}

} // verus!
