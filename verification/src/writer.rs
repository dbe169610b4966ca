//! What a run leaves in the target file, what it prints afterwards, and how
//! a failed open is handled.
//!
//! The unverified shell only moves bytes: it reads the file's prior contents,
//! asks [`apply_write`] for the contents the run must leave behind, writes
//! them, and prints the line that [`report`] builds.

use vstd::prelude::*;

use crate::errors::RunError;

verus! {

/// The file contents after one run, as a function of the contents before the
/// run, the contents argument, and the two write-mode flags. Truncation takes
/// precedence over appending; without either flag the run replaces the file's
/// entire contents.
pub open spec fn written_contents(
    prior: Seq<char>,
    contents: Seq<char>,
    append: bool,
    truncate: bool,
) -> Seq<char> {
    if truncate {
        contents
    } else if append {
        prior + contents
    } else {
        contents
    }
}

/// Computes the full contents the target file must hold after the run.
pub fn apply_write(prior: &str, contents: &str, append: bool, truncate: bool) -> (r: String)
    ensures
        r@ == written_contents(prior@, contents@, append, truncate),
{
    if truncate {
        contents.to_owned()
    } else if append {
        let mut out = prior.to_owned();
        out.append(contents);
        out
    } else {
        contents.to_owned()
    }
}

/// The exact text printed on standard output after a successful run, when
/// printing is enabled: a fixed header line naming the file, then the file's
/// full current contents.
pub open spec fn report_text(filepath: Seq<char>, file_text: Seq<char>) -> Seq<char> {
    "The contents of "@ + filepath + " is\n"@ + file_text
}

/// Builds the report printed after a successful run, from the file's path and
/// its full contents as re-read from disk.
pub fn report(filepath: &str, file_text: &str) -> (r: String)
    ensures
        r@ == report_text(filepath@, file_text@),
{
    let mut out = "The contents of ".to_owned();
    out.append(filepath);
    out.append(" is\n");
    out.append(file_text);
    out
}

/// Why an attempt to open the target file for writing failed, as the
/// unverified shell observed it.
#[derive(Debug, Clone, Copy, PartialEq, Eq)]
pub enum OpenErrorKind {
    /// The file did not exist at the moment of the open.
    NotFound,
    /// Any other failure: permissions, I/O error, and so on.
    Other,
}

/// How the tool reacts to a failed open.
#[derive(Debug, Clone, PartialEq, Eq)]
pub enum OpenRecovery {
    /// Create a new empty file at the path and open that for writing.
    CreateNew,
    /// Give up, reporting the carried error.
    Fail(RunError),
}

/// The reaction owed to each kind of open failure: only non-existence is
/// recovered from, by creating the file; everything else ends the run.
pub open spec fn spec_open_recovery(kind: OpenErrorKind) -> OpenRecovery {
    match kind {
        OpenErrorKind::NotFound => OpenRecovery::CreateNew,
        OpenErrorKind::Other => OpenRecovery::Fail(RunError::OpenFailure),
    }
}

/// Decides how the tool reacts when the target file could not be opened for
/// writing. A missing file is treated as a benign race since the path was
/// validated earlier: the file is created afresh. Any other failure is
/// terminal and is reported as the fixed open-failure message.
pub fn open_recovery(kind: OpenErrorKind) -> (r: OpenRecovery)
    ensures
        r == spec_open_recovery(kind),
{
    match kind {
        OpenErrorKind::NotFound => OpenRecovery::CreateNew,
        OpenErrorKind::Other => OpenRecovery::Fail(RunError::OpenFailure),
    }
}

/// Law: a run without flags overwrites the file's entire contents with
/// exactly the new contents, whatever was there before.
pub proof fn lemma_overwrite_is_exact(prior: Seq<char>, contents: Seq<char>)
    ensures
        written_contents(prior, contents, false, false) == contents,
{
}

/// Law: a run with the append flag produces the prior contents followed
/// immediately by the new contents, with no separator inserted.
pub proof fn lemma_append_concatenates(prior: Seq<char>, contents: Seq<char>)
    ensures
        written_contents(prior, contents, true, false) == prior + contents,
{
}

/// Law: a run with the truncate flag produces exactly the new contents,
/// regardless of the prior contents and of the append flag.
pub proof fn lemma_truncate_is_exact(prior: Seq<char>, contents: Seq<char>, append: bool)
    ensures
        written_contents(prior, contents, append, true) == contents,
{
}

/// Law: running twice in overwrite mode with the same contents leaves the
/// same file contents as running once.
pub proof fn lemma_overwrite_idempotent(prior: Seq<char>, contents: Seq<char>)
    ensures
        written_contents(
            written_contents(prior, contents, false, false),
            contents,
            false,
            false,
        ) == written_contents(prior, contents, false, false),
{
}

} // verus!
