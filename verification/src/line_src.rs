//! Line sources: producers of `(label, line number, text)` records.
//!
//! The application owns the actual streams and readers; the types here hold
//! the per-run state (pending file queue, current label, line counter) and
//! make every decision: which path is opened next, whether it is skipped and
//! with which diagnostic, how the line counter advances, and which label a
//! record carries.

use vstd::prelude::*;
use vstd::string::StrSliceExecFns;
use vstd::string::StringExecFns;

verus! {

/// One capability over both source variants: turn what the application just
/// fetched from the current underlying stream into the next line record,
/// advancing the source's state. `fetched` is `None` when the stream gave no
/// line; no record is ever produced from an empty fetch.
pub trait LineSource {
    /// How one call of `produce` may change the source and what it returns:
    /// each variant pins its full behavior here.
    spec fn step_ok(
        pre: &Self,
        post: &Self,
        fetched: Option<String>,
        r: Option<(String, u32, String)>,
    ) -> bool;

    fn produce(&mut self, fetched: Option<String>) -> (r: Option<(String, u32, String)>)
        ensures
            r is Some ==> fetched is Some,
            Self::step_ok(old(self), final(self), fetched, r),
    ;
}

/// `text` with one trailing line terminator (`"\n"` or `"\r\n"`) removed.
pub open spec fn stripped_line(text: Seq<char>) -> Seq<char> {
    if text.len() >= 2 && text[text.len() - 2] == '\r' && text[text.len() - 1] == '\n' {
        text.take(text.len() - 2)
    } else if text.len() >= 1 && text[text.len() - 1] == '\n' {
        text.take(text.len() - 1)
    } else {
        text
    }
}

/// Removes the trailing line terminator, if any, from a raw line: `"\r\n"`
/// and `"\n"` both go, anything else stays.
pub fn strip_line_terminator(text: &String) -> (r: String)
    ensures
        r@ == stripped_line(text@),
{
    let st = text.as_str();
    let n = st.unicode_len();
    if n >= 2 && st.get_char(n - 2) == '\r' && st.get_char(n - 1) == '\n' {
        let r = st.substring_char(0, n - 2).to_owned();
        proof {
            assert(r@ =~= stripped_line(text@));
        }
        r
    } else if n >= 1 && st.get_char(n - 1) == '\n' {
        let r = st.substring_char(0, n - 1).to_owned();
        proof {
            assert(r@ =~= stripped_line(text@));
        }
        r
    } else {
        text.clone()
    }
}

/// Whether `c` separates path components: `'/'`, or the Windows-style
/// `'\'`, which the expanded command-line arguments may carry.
pub open spec fn is_path_separator(c: char) -> bool {
    c == '/' || c == '\\'
}

/// The base name of a path: the suffix after the last path separator (the
/// whole path when it has no separator, empty when it ends in one). A path
/// ending in `'/'` never reaches labeling through the application: it names
/// a directory, or nothing, and is skipped before any label is set.
pub open spec fn base_name_of(path: Seq<char>) -> Seq<char>
    decreases path.len(),
{
    if path.len() == 0 {
        path
    } else if is_path_separator(path[path.len() - 1]) {
        Seq::<char>::empty()
    } else {
        base_name_of(path.take(path.len() - 1)).push(path[path.len() - 1])
    }
}

proof fn lemma_base_name_suffix(path: Seq<char>, k: int)
    requires
        0 <= k <= path.len(),
        k == 0 || is_path_separator(path[k - 1]),
        forall|j: int| k <= j < path.len() ==> !is_path_separator(path[j]),
    ensures
        base_name_of(path) == path.subrange(k, path.len() as int),
    decreases path.len(),
{
    if path.len() == 0 {
        assert(base_name_of(path) =~= path.subrange(k, path.len() as int));
    } else if is_path_separator(path[path.len() - 1]) {
        assert(k == path.len()) by {
            if k < path.len() {
                assert(!is_path_separator(path[path.len() - 1]));
            }
        }
        assert(base_name_of(path) =~= path.subrange(k, path.len() as int));
    } else {
        let shorter = path.take(path.len() - 1);
        assert(k <= shorter.len()) by {
            if k == path.len() {
                assert(!is_path_separator(path[k - 1]));
            }
        }
        lemma_base_name_suffix(shorter, k);
        assert(base_name_of(path) =~= path.subrange(k, path.len() as int));
    }
}

/// The suffix of `path` after its last path separator, as a fresh string.
pub fn base_name(path: &String) -> (r: String)
    ensures
        r@ == base_name_of(path@),
{
    let st = path.as_str();
    let n = st.unicode_len();
    let mut k: usize = n;
    while k > 0 && st.get_char(k - 1) != '/' && st.get_char(k - 1) != '\\'
        invariant
            k <= n,
            n == st@.len(),
            st@ == path@,
            forall|j: int| k <= j < n ==> !is_path_separator(st@[j]),
        decreases k,
    {
        k = k - 1;
    }
    let r = st.substring_char(k, n).to_owned();
    proof {
        lemma_base_name_suffix(path@, k as int);
    }
    r
}

/// Outcome of checking a candidate path before opening it.
///
/// A path is examined in this order: a directory is skipped first, then a
/// missing file, then a file that fails the UTF-8 probe; only a path that
/// passes all three checks is opened.
#[derive(Clone, Copy, Debug, PartialEq, Eq, Structural)]
pub enum FileCheck {
    Directory,
    Missing,
    NotUtf8,
    Usable,
}

/// The UTF-8 probe's decision, given the outcome of reading the first two
/// bytes of a file: `n_read` bytes were read into `(b0, b1)`.
///
/// A file is rejected exactly when two bytes could be read and they form the
/// byte-order mark `0xFF, 0xFE`; every other file is accepted, including one
/// too short to yield two bytes.
pub fn probe_is_utf8(n_read: usize, b0: u8, b1: u8) -> (ok: bool)
    ensures
        ok == !(n_read == 2 && b0 == 0xFF && b1 == 0xFE),
{
    !(n_read == 2 && b0 == 0xFF && b1 == 0xFE)
}

/// Classifies a candidate path from the facts the application gathered:
/// whether the path exists, whether it names a directory, and whether the
/// UTF-8 probe accepted it.
pub fn classify_path(exists: bool, is_dir: bool, probe_ok: bool) -> (r: FileCheck)
    ensures
        is_dir ==> r == FileCheck::Directory,
        !is_dir && !exists ==> r == FileCheck::Missing,
        !is_dir && exists && !probe_ok ==> r == FileCheck::NotUtf8,
        !is_dir && exists && probe_ok ==> r == FileCheck::Usable,
{
    if is_dir {
        FileCheck::Directory
    } else if !exists {
        FileCheck::Missing
    } else if !probe_ok {
        FileCheck::NotUtf8
    } else {
        FileCheck::Usable
    }
}

/// The diagnostic line for a path skipped as a directory.
pub open spec fn directory_diag(path: Seq<char>) -> Seq<char> {
    "\""@ + path + "\" is a directory"@
}

/// The diagnostic line for a path skipped as missing.
pub open spec fn missing_diag(path: Seq<char>) -> Seq<char> {
    "\""@ + path + "\" - no such file!"@
}

/// The diagnostic line for a path skipped by the UTF-8 probe.
pub open spec fn not_utf8_diag(path: Seq<char>) -> Seq<char> {
    "\""@ + path + "\" is not a UTF-8 encoded file!"@
}

/// The diagnostic line the error channel gets for a skipped path; a usable
/// path gets none.
pub fn skip_diagnostic(check: FileCheck, path: &String) -> (r: Option<String>)
    ensures
        match check {
            FileCheck::Directory => r matches Some(m) && m@ == directory_diag(path@),
            FileCheck::Missing => r matches Some(m) && m@ == missing_diag(path@),
            FileCheck::NotUtf8 => r matches Some(m) && m@ == not_utf8_diag(path@),
            FileCheck::Usable => r is None,
        },
{
    match check {
        FileCheck::Directory => {
            let m = String::from_str("\"").concat(path.as_str()).concat("\" is a directory");
            proof {
                assert(m@ =~= directory_diag(path@));
            }
            Some(m)
        },
        FileCheck::Missing => {
            let m = String::from_str("\"").concat(path.as_str()).concat("\" - no such file!");
            proof {
                assert(m@ =~= missing_diag(path@));
            }
            Some(m)
        },
        FileCheck::NotUtf8 => {
            let m = String::from_str("\"").concat(path.as_str()).concat(
                "\" is not a UTF-8 encoded file!",
            );
            proof {
                assert(m@ =~= not_utf8_diag(path@));
            }
            Some(m)
        },
        FileCheck::Usable => None,
    }
}

/// The standard-input variant: every record carries an empty label and
/// index 0, since standard input has no file-scoped numbering.
pub struct LinesFromStdin {
    pub index: u32,
}

impl LinesFromStdin {
    pub fn new() -> (r: LinesFromStdin)
        ensures
            r.index == 0,
    {
        LinesFromStdin { index: 0 }
    }

    /// Turns a raw line read from standard input into a record: empty label,
    /// index 0, text with the trailing line terminator stripped. A failed
    /// fetch (`None`) or an empty one (end of the stream) produces no
    /// record, and the application stops fetching.
    pub fn record_from(&mut self, fetched: Option<String>) -> (r: Option<(String, u32, String)>)
        ensures
            *final(self) == *old(self),
            match fetched {
                None => r is None,
                Some(raw) => {
                    if raw@.len() == 0 {
                        r is None
                    } else {
                        r matches Some(rec) && rec.0@ == Seq::<char>::empty() && rec.1 == 0
                            && rec.2@ == stripped_line(raw@)
                    }
                },
            },
    {
        match fetched {
            None => None,
            Some(raw) => {
                if raw.as_str().unicode_len() == 0 {
                    None
                } else {
                    Some((String::new(), 0u32, strip_line_terminator(&raw)))
                }
            },
        }
    }
}

impl LineSource for LinesFromStdin {
    /// The stdin step: the state never changes; a failed or empty fetch
    /// produces nothing; any other fetched line becomes a record with empty
    /// label, index 0 and terminator-stripped text.
    open spec fn step_ok(
        pre: &Self,
        post: &Self,
        fetched: Option<String>,
        r: Option<(String, u32, String)>,
    ) -> bool {
        &&& *post == *pre
        &&& match fetched {
            Option::None => r is None,
            Option::Some(raw) => {
                if raw@.len() == 0 {
                    r is None
                } else {
                    (r matches Some(rec) && rec.0@ == Seq::<char>::empty() && rec.1 == 0
                        && rec.2@ == stripped_line(raw@))
                }
            },
        }
    }

    fn produce(&mut self, fetched: Option<String>) -> (r: Option<(String, u32, String)>) {
        self.record_from(fetched)
    }
}

/// The multi-file variant: a queue of pending paths, consumed one at a time
/// from the end, and the bookkeeping for the file currently being read.
pub struct LinesFromFiles {
    /// Pending paths; the next file is taken from the end.
    pub files: Vec<String>,
    /// The label stamped on records: the open file's base name, or empty
    /// for a single-file run.
    pub current_filename: String,
    /// 1-based number of the last line produced from the open file.
    pub index: u32,
    /// Whether the run was constructed from exactly one file; such a run
    /// never labels its records.
    pub single_file: bool,
    /// Whether a file is currently open for reading.
    pub reading: bool,
}

impl LinesFromFiles {
    pub fn new(files: Vec<String>) -> (r: LinesFromFiles)
        ensures
            r.files == files,
            r.current_filename@ == Seq::<char>::empty(),
            r.index == 0,
            r.single_file == (files@.len() == 1),
            !r.reading,
    {
        let single: bool = files.len() == 1;
        LinesFromFiles {
            files,
            current_filename: String::new(),
            index: 0,
            single_file: single,
            reading: false,
        }
    }

    /// Removes and returns the next pending path. The queue is consumed from
    /// the end: the last-specified file is processed first.
    pub fn pop_next(&mut self) -> (r: Option<String>)
        ensures
            old(self).files@.len() == 0 ==> r is None && final(self).files@ == old(self).files@,
            old(self).files@.len() > 0 ==> r == Some(old(self).files@.last())
                && final(self).files@ == old(self).files@.drop_last(),
            final(self).current_filename == old(self).current_filename,
            final(self).index == old(self).index,
            final(self).single_file == old(self).single_file,
            final(self).reading == old(self).reading,
    {
        self.files.pop()
    }

    /// Starts bookkeeping for an opened file: the line counter restarts at
    /// zero, and the record label becomes the file's base name, except that
    /// a run constructed from exactly one file keeps the label empty.
    pub fn begin_file(&mut self, path: &String)
        ensures
            final(self).reading,
            final(self).index == 0,
            final(self).current_filename@ == if old(self).single_file {
                Seq::<char>::empty()
            } else {
                base_name_of(path@)
            },
            final(self).files == old(self).files,
            final(self).single_file == old(self).single_file,
    {
        self.index = 0;
        self.reading = true;
        if self.single_file {
            self.current_filename = String::new();
        } else {
            self.current_filename = base_name(path);
        }
    }

    /// Stamps the next physical line of the open file: the line counter
    /// advances by exactly one, and the record carries the current label and
    /// the new counter value.
    pub fn next_line(&mut self, text: String) -> (r: (String, u32, String))
        requires
            old(self).reading,
            old(self).index < u32::MAX,
        ensures
            final(self).index == old(self).index + 1,
            final(self).files == old(self).files,
            final(self).current_filename == old(self).current_filename,
            final(self).single_file == old(self).single_file,
            final(self).reading,
            r.0 == old(self).current_filename,
            r.1 == old(self).index + 1,
            r.2 == text,
    {
        self.index = self.index + 1;
        (self.current_filename.clone(), self.index, text)
    }

    /// Marks the open file as exhausted; the pending queue is untouched and
    /// the application moves on to the next path.
    pub fn end_file(&mut self)
        ensures
            !final(self).reading,
            final(self).files == old(self).files,
            final(self).current_filename == old(self).current_filename,
            final(self).index == old(self).index,
            final(self).single_file == old(self).single_file,
    {
        self.reading = false;
    }
}

impl LineSource for LinesFromFiles {
    /// The files step: the pending queue, the label and the single-file flag
    /// never change. An empty fetch closes the open file and returns
    /// nothing. A line fetched while a file is open (and the counter can
    /// advance) is stamped with the current label and the next index; any
    /// other fetch is dropped with the state unchanged — the application
    /// guards both conditions before fetching.
    open spec fn step_ok(
        pre: &Self,
        post: &Self,
        fetched: Option<String>,
        r: Option<(String, u32, String)>,
    ) -> bool {
        &&& post.files == pre.files
        &&& post.current_filename == pre.current_filename
        &&& post.single_file == pre.single_file
        &&& match fetched {
            Option::None => {
                &&& r is None
                &&& !post.reading
                &&& post.index == pre.index
            },
            Option::Some(text) => {
                if pre.reading && pre.index < u32::MAX {
                    &&& (r matches Some(rec) && rec.0 == pre.current_filename && rec.1
                        == pre.index + 1 && rec.2 == text)
                    &&& post.reading
                    &&& post.index == pre.index + 1
                } else {
                    &&& r is None
                    &&& post.reading == pre.reading
                    &&& post.index == pre.index
                }
            },
        }
    }

    fn produce(&mut self, fetched: Option<String>) -> (r: Option<(String, u32, String)>) {
        match fetched {
            None => {
                self.end_file();
                None
            },
            Some(text) => {
                if self.reading && self.index < u32::MAX {
                    Some(self.next_line(text))
                } else {
                    None
                }
            },
        }
    }
}

} // verus!
