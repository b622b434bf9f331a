//! Core of a desktop editor for annotation-graph corpora: an asynchronous
//! job-execution engine, a single-slot graph cache, and a diff-based
//! undo/redo manager built around a project orchestrator.
//!
//! The graphical shell around this library only queues work through
//! [`project::Project`] and performs the scheduled [`jobs::JobAction`]s;
//! everything that decides or computes lives here, with contracts.
use vstd::prelude::*;

pub mod cache;
pub mod corpus;
pub mod engine;
pub mod errors;
pub mod events;
pub mod jobs;
pub mod messages;
pub mod project;
pub mod shutdown;
pub mod undo;
pub mod views;

verus! {

/// Command line switches of the application.
#[derive(Debug, Clone, PartialEq, Eq, Structural)]
pub struct AnnatomicArgs {
    /// Start in development mode, which displays additional information
    /// only relevant for developers.
    pub dev: bool,
}

impl Default for AnnatomicArgs {
    fn default() -> (r: Self)
        ensures
            r.dev == false,
    {
        AnnatomicArgs { dev: false }
    }
}

/// The replacement a character receives when whitespace is made visible:
/// a space becomes an open box, a line break a return symbol.
pub open spec fn visible_char(c: char) -> char {
    if c == ' ' {
        '\u{2423}'
    } else if c == '\n' {
        '\u{21B5}'
    } else {
        c
    }
}

/// The whole text with every whitespace character made visible.
pub open spec fn whitespace_visible(s: Seq<char>) -> Seq<char> {
    s.map_values(|c: char| visible_char(c))
}

/// Replaces spaces and line breaks by visible placeholder symbols, so that
/// the user can see them in an editable text field.
pub fn make_whitespace_visible(v: &Vec<char>) -> (r: Vec<char>)
    ensures
        r@ == whitespace_visible(v@),
{
    let mut out: Vec<char> = Vec::new();
    let mut i: usize = 0;
    while i < v.len()
        invariant
            i <= v.len(),
            out@ == whitespace_visible(v@.take(i as int)),
        decreases v.len() - i,
    {
        let c = v[i];
        let d = if c == ' ' {
            '\u{2423}'
        } else if c == '\n' {
            '\u{21B5}'
        } else {
            c
        };
        out.push(d);
        proof {
            assert(out@ =~= whitespace_visible(v@.take(i as int + 1)));
        }
        i += 1;
    }
    proof {
        assert(v@.take(v@.len() as int) =~= v@);
    }
    out
}

} // verus!
