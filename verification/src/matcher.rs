//! Trusted boundary around the `glob` crate's pattern matcher.
//!
//! Everything the library asks of the matcher goes through the two
//! wrappers here: one compiles a pattern, one draws the next entry from
//! the walk. Their contracts state only what the matcher's source and
//! documentation show.

use vstd::prelude::*;

verus! {

/// Whether the matcher accepts a pattern string: `glob::glob_with` hands
/// back its iterator exactly on the patterns whose syntax it accepts, as
/// a whole and component by component. Acceptance depends on the pattern
/// text alone, never on the filesystem or the match options.
pub uninterp spec fn pattern_ok(pattern: Seq<char>) -> bool;

/// The message the matcher reports for a pattern it rejects, in the
/// display form of `glob::PatternError`. It depends on the pattern text
/// alone.
pub uninterp spec fn rejection_of(pattern: Seq<char>) -> Seq<char>;

#[verifier::external_type_specification]
#[verifier::external_body]
pub struct ExPaths(glob::Paths);

#[verifier::external_type_specification]
#[verifier::external_body]
pub struct ExGlobError(glob::GlobError);

#[verifier::external_type_specification]
#[verifier::external_body]
pub struct ExPathBuf(std::path::PathBuf);

/// Relies on `glob::glob_with`: it returns `Ok` exactly when the pattern
/// compiles (its only check before the walk begins), and otherwise a
/// `glob::PatternError`, whose display form is the fixed, never empty
/// text "Pattern syntax error near position {pos}: {msg}".
///
/// The options this library runs with are fixed, so the `requires`
/// demands them of every caller. In particular a demand for a literal
/// leading dot must stay out: with it set, the matcher's walk reads each
/// directory-entry name as UTF-8 and panics on a name that is not.
#[verifier::external_body]
pub(crate) fn compile(
    pattern: &str,
    case_sensitive: bool,
    literal_separator: bool,
    literal_leading_dot: bool,
) -> (r: Result<glob::Paths, String>)
    requires
        case_sensitive == false,
        literal_separator == false,
        literal_leading_dot == false,
    ensures
        r is Ok <==> pattern_ok(pattern@),
        r matches Err(m) ==> m@ == rejection_of(pattern@) && m@.len() > 0,
{
    let options = glob::MatchOptions {
        case_sensitive,
        require_literal_separator: literal_separator,
        require_literal_leading_dot: literal_leading_dot,
    };
    match glob::glob_with(pattern, options) {
        Ok(paths) => Ok(paths),
        Err(e) => Err(e.to_string()),
    }
}

/// Relies on `glob::Paths::next`: `None` once the walk is exhausted,
/// otherwise one entry, a resolved path or the error met while reading a
/// matching path, each rendered as its display string. Which entries
/// come, and in what order, depends on the filesystem at the moment of
/// the walk, so nothing is claimed of them.
#[verifier::external_body]
pub(crate) fn next_entry(paths: &mut glob::Paths) -> (r: Option<Result<String, String>>) {
    match paths.next() {
        None => None,
        Some(Ok(path)) => Some(Ok(path.display().to_string())),
        Some(Err(e)) => Some(Err(e.to_string())),
    }
}

} // verus!
