//! A handle on one settings file and one scope within it, and the decisions of
//! the read/modify/persist protocol.
//!
//! A handle does no I/O itself. To read a key, the caller reads the backing
//! file and hands its text to `get` (or `None` where the file is absent or
//! unreadable). To write one, the caller reads the file and hands the outcome
//! to `set`, which answers with what to do next: create an empty file and read
//! again, write a document over the file, or report a failure.

use crate::document::{
    apply_change, empty_sections, get_value, lemma_delete_then_lookup, lemma_set_then_lookup,
    lookup, parse_document, parsed, scope_view, sections_of, updated, Sections,
};
use crate::error::KettleError;
use crate::paths::join_path;
use vstd::prelude::*;

verus! {

/// The view of an optional value.
pub open spec fn value_view(v: Option<&str>) -> Option<Seq<char>> {
    match v {
        Some(s) => Some(s@),
        None => None,
    }
}

/// What a key reads as in the backing file whose text is `contents` (`None`:
/// the file is absent or unreadable). A text that does not parse holds no key.
pub open spec fn stored(
    contents: Option<Seq<char>>,
    s: Option<Seq<char>>,
    key: Seq<char>,
) -> Option<Seq<char>> {
    match contents {
        Some(t) => match parsed(t) {
            Some(m) => lookup(m, s, key),
            None => None,
        },
        None => None,
    }
}

/// The outcome of reading the backing file.
pub enum Loaded {
    /// The file's text.
    Text(String),
    /// The file does not exist.
    Missing(std::io::Error),
    /// Reading failed for another reason.
    Failed(std::io::Error),
}

/// What a write asks of the caller next.
pub enum SetAction {
    /// Create the parent directory and an empty file, then read the file again.
    CreateEmpty,
    /// Write this document over the file; the write is then done.
    Save(ini::Ini),
    /// Report this failure; the file is left as it is.
    Fail(KettleError),
}

/// One settings file, located by a directory and a file name, and the scope
/// (`None`: the general section) that reads and writes go to.
pub struct Config {
    dir: std::path::PathBuf,
    file: &'static str,
    section: Option<&'static str>,
}

impl Config {
    /// The directory that holds the file.
    pub closed spec fn dir_spec(&self) -> std::path::PathBuf {
        self.dir
    }

    /// The file's name within its directory.
    pub closed spec fn file_name(&self) -> Seq<char> {
        self.file@
    }

    /// The scope that reads and writes go to.
    pub closed spec fn scope(&self) -> Option<Seq<char>> {
        scope_view(self.section)
    }

    /// A handle on the file `file` in `dir`, scoped to the general section.
    pub fn from(dir: std::path::PathBuf, file: &'static str) -> (r: Config)
        ensures
            r.dir_spec() == dir,
            r.file_name() == file@,
            r.scope() is None,
    {
        Config { dir, file, section: None }
    }

    /// The same file, scoped to the section `section`. The receiver is consumed
    /// and no file is touched.
    pub fn section(self, section: &'static str) -> (r: Config)
        ensures
            r.dir_spec() == self.dir_spec(),
            r.file_name() == self.file_name(),
            r.scope() == Some(section@),
    {
        Config { dir: self.dir, file: self.file, section: Some(section) }
    }

    /// The directory that holds the file.
    pub fn dir(&self) -> (r: &std::path::PathBuf)
        ensures
            *r == self.dir_spec(),
    {
        &self.dir
    }

    /// The file's name within its directory.
    pub fn file(&self) -> (r: &'static str)
        ensures
            r@ == self.file_name(),
    {
        self.file
    }

    /// The section that reads and writes go to, if any.
    pub fn scope_name(&self) -> (r: Option<&'static str>)
        ensures
            scope_view(r) == self.scope(),
    {
        self.section
    }

    /// The backing file's path: the file name joined to the directory.
    pub fn path(&self) -> std::path::PathBuf {
        join_path(&self.dir, self.file)
    }

    /// The value of `key` in this handle's scope, read from `contents`, the
    /// backing file's text (`None` where the file is absent or unreadable).
    /// A missing file, a text that does not parse, a missing section and a
    /// missing key all read as `None`.
    pub fn get(&self, contents: Option<&str>, key: &str) -> (r: Option<String>)
        ensures
            match r {
                Some(v) => stored(value_view(contents), self.scope(), key@) == Some(v@),
                None => stored(value_view(contents), self.scope(), key@) is None,
            },
    {
        match contents {
            Some(text) => match parse_document(text) {
                Ok(doc) => get_value(&doc, self.section, key),
                Err(_) => None,
            },
            None => None,
        }
    }

    /// One step of writing `key`: `Some(v)` sets it to `v` in this handle's
    /// scope, `None` deletes it (a named section left without keys goes too).
    /// `loaded` is the outcome of reading the backing file, and `created` says
    /// whether this write has already created it.
    ///
    /// A readable file that parses gives `Save` of the changed document; one
    /// that does not parse gives the parse error. A missing file gives
    /// `CreateEmpty` the first time and an I/O failure after that; any other
    /// read failure is reported as it came.
    pub fn set(&self, loaded: Loaded, created: bool, key: &str, value: Option<&str>) -> (r:
        SetAction)
        ensures
            match loaded {
                Loaded::Text(t) => match parsed(t@) {
                    Some(m) => r is Save && sections_of(r->Save_0) == updated(
                        m,
                        self.scope(),
                        key@,
                        value_view(value),
                    ),
                    None => r is Fail && r->Fail_0 is IniParseError,
                },
                Loaded::Missing(e) => if created {
                    r == SetAction::Fail(KettleError::IoError(e))
                } else {
                    r is CreateEmpty
                },
                Loaded::Failed(e) => r == SetAction::Fail(KettleError::IoError(e)),
            },
            loaded is Text && loaded->Text_0@.len() == 0 ==> r is Save && sections_of(r->Save_0)
                == updated(empty_sections(), self.scope(), key@, value_view(value)),
    {
        match loaded {
            Loaded::Text(t) => match parse_document(t.as_str()) {
                Ok(doc) => {
                    let mut doc = doc;
                    apply_change(&mut doc, self.section, key, value);
                    SetAction::Save(doc)
                },
                Err(e) => SetAction::Fail(KettleError::IniParseError(e)),
            },
            Loaded::Missing(e) => if created {
                SetAction::Fail(KettleError::IoError(e))
            } else {
                SetAction::CreateEmpty
            },
            Loaded::Failed(e) => SetAction::Fail(KettleError::IoError(e)),
        }
    }
}

/// A file whose text reads back as the document that a write of `key` with
/// `Some(v)` saved holds `v` under `key` in that scope; one that a write of
/// `key` with `None` saved holds nothing under `key` there.
pub proof fn lemma_saved_write_reads_back(
    m: Sections,
    t: Seq<char>,
    s: Option<Seq<char>>,
    key: Seq<char>,
    value: Option<Seq<char>>,
)
    requires
        parsed(t) == Some(updated(m, s, key, value)),
    ensures
        stored(Some(t), s, key) == value,
{
    match value {
        Some(v) => lemma_set_then_lookup(m, s, key, v),
        None => lemma_delete_then_lookup(m, s, key),
    }
}

/// A file that does not exist reads as holding no key, in every scope.
pub proof fn lemma_missing_file_holds_nothing(s: Option<Seq<char>>, key: Seq<char>)
    ensures
        stored(None, s, key) is None,
{
}

} // verus!
