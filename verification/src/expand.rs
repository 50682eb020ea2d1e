//! The one operation of this library: expand a glob pattern into the
//! paths it matches, or report why the pattern does not parse.

use vstd::prelude::*;

use crate::matcher::compile;
use crate::matcher::rejection_of;
use crate::matcher::next_entry;
use crate::matcher::pattern_ok;

verus! {

/// Outcome of expanding one pattern: the matched paths, in the matcher's
/// iteration order, or the matcher's message for a pattern that does not
/// parse. Only a pattern that fails to compile produces `Error`; a valid
/// pattern that matches nothing produces `Result` with an empty list.
pub enum GlobResult {
    Error(String),
    Result(Vec<String>),
}

/// What one walk entry contributes to the accumulated paths: a resolved
/// entry is appended, a failed one is dropped.
pub open spec fn after_entry(dirs: Seq<String>, entry: Result<String, String>) -> Seq<String> {
    match entry {
        Ok(path) => dirs.push(path),
        Err(_) => dirs,
    }
}

/// The accumulated paths after a whole walk's entries, taken in order.
pub open spec fn after_walk(dirs: Seq<String>, entries: Seq<Result<String, String>>) -> Seq<String>
    decreases entries.len(),
{
    if entries.len() == 0 {
        dirs
    } else {
        after_entry(after_walk(dirs, entries.drop_last()), entries.last())
    }
}

proof fn lemma_after_walk_snoc(
    dirs: Seq<String>,
    entries: Seq<Result<String, String>>,
    entry: Result<String, String>,
)
    ensures
        after_walk(dirs, entries.push(entry)) == after_entry(after_walk(dirs, entries), entry),
{
    assert(entries.push(entry).drop_last() =~= entries);
    assert(entries.push(entry).last() == entry);
}

/// Law: a walk in which every entry fails to resolve contributes
/// nothing, so the accumulated list ends exactly as it began. A valid
/// pattern whose matches all fail to resolve therefore returns the same
/// empty list as one that matches nothing at all: the two are
/// indistinguishable in the result.
pub proof fn lemma_failed_entries_add_nothing(
    dirs: Seq<String>,
    entries: Seq<Result<String, String>>,
)
    requires
        forall|i: int| 0 <= i < entries.len() ==> entries[i] is Err,
    ensures
        after_walk(dirs, entries) == dirs,
    decreases entries.len(),
{
    if entries.len() > 0 {
        assert(entries[entries.len() - 1] is Err);
        assert forall|i: int| 0 <= i < entries.drop_last().len() implies entries.drop_last()[i]
            is Err by {
            assert(entries[i] is Err);
        }
        lemma_failed_entries_add_nothing(dirs, entries.drop_last());
    }
}

/// Appends a resolved entry to the accumulated paths and drops a failed
/// one, leaving the list as it was: the walk's per-entry errors are
/// deliberately invisible to the caller.
pub fn push_resolved(dirs: &mut Vec<String>, entry: Result<String, String>)
    ensures
        final(dirs)@ == after_entry(old(dirs)@, entry),
{
    if let Ok(path) = entry {
        dirs.push(path);
    }
}

/// The fixed match options: names match regardless of case, and no
/// literal separator or literal leading dot is demanded of the pattern,
/// so wildcards match hidden names too.
const CASE_SENSITIVE: bool = false;
const LITERAL_SEPARATOR: bool = false;
const LITERAL_LEADING_DOT: bool = false;

/// Expands `pattern` against the filesystem with the fixed match options
/// above.
///
/// Every pattern the matcher accepts yields `GlobResult::Result`, never
/// `GlobResult::Error`; every pattern it rejects yields the matcher's own
/// message, never a path list.
pub fn load_files_by_glob(pattern: String) -> (r: GlobResult)
    ensures
        (r matches GlobResult::Result(_)) <==> pattern_ok(pattern@),
        (r matches GlobResult::Error(_)) <==> !pattern_ok(pattern@),
        r matches GlobResult::Error(m) ==> m@ == rejection_of(pattern@) && m@.len() > 0,
{
    match compile(pattern.as_str(), CASE_SENSITIVE, LITERAL_SEPARATOR, LITERAL_LEADING_DOT) {
        Ok(mut paths) => {
            let mut dirs: Vec<String> = Vec::new();
            let ghost mut seen: Seq<Result<String, String>> = Seq::empty();
            // The matcher puts no bound on its walk, and no measure of the
            // filesystem is visible here, so the loop's measure is a counter
            // that no walk a machine can perform would exhaust.
            let mut fuel: u64 = u64::MAX;
            loop
                invariant
                    dirs@ == after_walk(Seq::empty(), seen),
                decreases fuel,
            {
                if fuel == 0 {
                    break;
                }
                fuel = fuel - 1;
                match next_entry(&mut paths) {
                    None => {
                        break;
                    },
                    Some(entry) => {
                        proof {
                            lemma_after_walk_snoc(Seq::empty(), seen, entry);
                            seen = seen.push(entry);
                        }
                        push_resolved(&mut dirs, entry);
                    },
                }
            }
            GlobResult::Result(dirs)
        },
        Err(message) => GlobResult::Error(message),
    }
}

} // verus!
