//! Decisions about the input document made before any rendering: whether
//! a path's extension names an SVG file, and which base name the output
//! files carry. Reading the path and the document stays with the caller.

use vstd::prelude::*;
use vstd::string::StrSliceExecFns;

verus! {

/// Rejection of a run whose output files cannot be named.
#[derive(Clone, Copy, Debug, PartialEq, Eq, Structural)]
pub enum NameError {
    /// The input came from standard input and no explicit name was given.
    FilenameRequired,
}

/// Whether a file extension names an SVG document.
pub fn is_svg_extension(ext: &str) -> (r: bool)
    ensures
        r == (ext@ == "svg"@),
{
    proof {
        reveal_strlit("svg");
    }
    let n = ext.unicode_len();
    if n != 3 {
        return false;
    }
    let r = ext.get_char(0) == 's' && ext.get_char(1) == 'v' && ext.get_char(2) == 'g';
    proof {
        if r {
            assert(ext@ =~= "svg"@);
        }
    }
    r
}

/// The base name of the output files: an explicit name wins, else the
/// input file's stem; with neither — input read from standard input and no
/// name given — the run is rejected before any rendering.
pub fn resolve_filename(explicit: Option<String>, stem: Option<String>) -> (r: Result<
    String,
    NameError,
>)
    ensures
        explicit is Some ==> r is Ok && r->Ok_0@ == explicit->0@,
        explicit is None && stem is Some ==> r is Ok && r->Ok_0@ == stem->0@,
        explicit is None && stem is None ==> r == Result::<String, NameError>::Err(
            NameError::FilenameRequired,
        ),
{
    match explicit {
        Some(f) => Ok(f),
        None => match stem {
            Some(s) => Ok(s),
            None => Err(NameError::FilenameRequired),
        },
    }
}

} // verus!
