//! Init subcommand
//!
//! What `demoji init` reports once it has found or written the `.demoji.toml` file; the
//! program does the file work and prints these lines.
use vstd::prelude::*;

use crate::engine::text::{joined, texts};

verus! {

broadcast use vstd::string::group_string_axioms;

/// What `demoji init` met at the configuration path.
#[derive(Debug, Clone, Copy, PartialEq, Eq, Structural)]
pub enum InitOutcome {
    /// A configuration file was already there and was left as it is; reported on the
    /// error stream.
    AlreadyExists,
    /// The template was written there; reported on the output stream.
    Created,
}

/// The lines reported for `outcome` at `path`: none when quiet, and the hints that follow
/// a creation only when verbose.
pub open spec fn init_lines(outcome: InitOutcome, path: Seq<char>, verbose: bool, quiet: bool) -> Seq<
    Seq<char>,
> {
    if quiet {
        Seq::empty()
    } else {
        match outcome {
            InitOutcome::AlreadyExists => seq!["  Config file already exists at: "@ + path],
            InitOutcome::Created => if verbose {
                seq![
                    " Created .demoji.toml at: "@ + path,
                    "   You can now customize the configuration to match your project's needs."@,
                    "   See the comments in the file for detailed option descriptions."@,
                ]
            } else {
                seq![" Created .demoji.toml at: "@ + path]
            },
        }
    }
}

/// The lines that `demoji init` prints for `outcome` at `config_path`.
pub fn init_report(outcome: InitOutcome, config_path: &str, verbose: bool, quiet: bool) -> (lines:
    Vec<String>)
    ensures
        texts(lines@) == init_lines(outcome, config_path@, verbose, quiet),
{
    let mut lines: Vec<String> = Vec::new();
    if quiet {
        assert(texts(lines@) =~= Seq::<Seq<char>>::empty());
        return lines;
    }
    match outcome {
        InitOutcome::AlreadyExists => {
            lines.push(joined("  Config file already exists at: ", config_path));
        },
        InitOutcome::Created => {
            lines.push(joined(" Created .demoji.toml at: ", config_path));
            if verbose {
                lines.push(
                    "   You can now customize the configuration to match your project's needs.".to_string(),
                );
                lines.push(
                    "   See the comments in the file for detailed option descriptions.".to_string(),
                );
            }
        },
    }
    assert(texts(lines@) =~= init_lines(outcome, config_path@, verbose, quiet));
    lines
}

} // verus!
