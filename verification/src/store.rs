//! The two operations of the store, without the file system.
//!
//! Loading reads the data file and falls back to a default payload. Saving
//! takes two steps on the file system, in order: make sure that the cache
//! directory exists, then write the payload over the data file. The host
//! performs each step and reports whether it succeeded; what follows from
//! that report is decided here.

use vstd::prelude::*;
use crate::paths::{data_file, data_file_path};

verus! {

/// The payload that stands for "nothing stored": an empty JSON object.
pub const DEFAULT_PAYLOAD: &'static str = "{}";

/// What loading returns when reading the data file gave `read`: the content
/// as it was read, or the default payload where nothing could be read.
pub open spec fn loaded(read: Option<Seq<char>>) -> Seq<char> {
    match read {
        Some(content) => content,
        None => DEFAULT_PAYLOAD@,
    }
}

/// The text of what a read returned.
pub open spec fn read_text(read: Option<String>) -> Option<Seq<char>> {
    match read {
        Some(content) => Some(content@),
        None => None,
    }
}

/// Returns the default payload.
pub fn default_payload() -> (payload: String)
    ensures
        payload@ == DEFAULT_PAYLOAD@,
{
    DEFAULT_PAYLOAD.to_owned()
}

/// Completes a load from what reading the data file returned.
///
/// `read` is the whole content of the file, or `None` where the file is
/// absent or could not be read as text for any reason. The content comes
/// back unchanged; every failure gives the default payload, so a load never
/// fails and the caller cannot tell the kinds of failure apart.
pub fn load_data(read: Option<String>) -> (payload: String)
    ensures
        payload@ == loaded(read_text(read)),
{
    match read {
        Some(content) => content,
        None => default_payload(),
    }
}

/// The step of a save that failed.
#[derive(Clone, Copy, Debug, PartialEq, Eq, Structural)]
pub enum SaveFault {
    /// The cache directory could not be created.
    CreateDir,
    /// The data file could not be written.
    WriteFile,
}

/// A save in progress. Each state tells the host what to do next.
#[derive(Debug, PartialEq, Eq)]
pub enum Save {
    /// Create the directory `dir` with all its parents; it may exist already.
    CreateDir { dir: String, payload: String },
    /// Replace the whole content of `file` by `payload`.
    WriteFile { file: String, payload: String },
    /// The payload is stored: return to the caller.
    Done,
    /// A step failed. Nothing is retried or cleaned up: the fault is fatal
    /// for this save and the host must raise it.
    Failed(SaveFault),
}

/// A save in progress, over texts.
pub enum SaveView {
    CreateDir { dir: Seq<char>, payload: Seq<char> },
    WriteFile { file: Seq<char>, payload: Seq<char> },
    Done,
    Failed(SaveFault),
}

impl View for Save {
    type V = SaveView;

    open spec fn view(&self) -> SaveView {
        match *self {
            Save::CreateDir { dir, payload } => SaveView::CreateDir { dir: dir@, payload: payload@ },
            Save::WriteFile { file, payload } => SaveView::WriteFile {
                file: file@,
                payload: payload@,
            },
            Save::Done => SaveView::Done,
            Save::Failed(fault) => SaveView::Failed(fault),
        }
    }
}

impl SaveView {
    /// The state in which a save of `payload` under `cache_dir` begins.
    pub open spec fn start(cache_dir: Seq<char>, payload: Seq<char>) -> SaveView {
        SaveView::CreateDir { dir: cache_dir, payload }
    }

    /// Whether the save has ended, in success or in a fault.
    pub open spec fn is_final(self) -> bool {
        self is Done || self is Failed
    }

    /// The state that follows when the host reports that the step of this
    /// state succeeded (`ok`) or failed. A state that has ended stays.
    pub open spec fn advance(self, ok: bool) -> SaveView {
        match self {
            SaveView::CreateDir { dir, payload } => if ok {
                SaveView::WriteFile { file: data_file_path(dir), payload }
            } else {
                SaveView::Failed(SaveFault::CreateDir)
            },
            SaveView::WriteFile { file, payload } => if ok {
                SaveView::Done
            } else {
                SaveView::Failed(SaveFault::WriteFile)
            },
            SaveView::Done => SaveView::Done,
            SaveView::Failed(fault) => SaveView::Failed(fault),
        }
    }
}

/// Begins a save of `data` under the cache directory `cache_dir`.
///
/// The payload is taken as it is, whatever its size or content. The first
/// step asks for the directory. The host carries the steps out and calls
/// [`Save::advance`] after each, until the save has ended.
pub fn save_data(cache_dir: String, data: String) -> (save: Save)
    ensures
        save@ == SaveView::start(cache_dir@, data@),
{
    Save::CreateDir { dir: cache_dir, payload: data }
}

impl Save {
    /// Whether the save has ended, in success or in a fault.
    pub fn is_final(&self) -> (ended: bool)
        ensures
            ended == self@.is_final(),
    {
        match self {
            Save::Done => true,
            Save::Failed(_) => true,
            _ => false,
        }
    }

    /// Takes the host's report on the step of this state and returns the
    /// state that follows.
    ///
    /// After the directory, the data file beneath it is written with the
    /// same payload; after the file, the save is done. A failed step ends
    /// the save in the fault of that step, and no later step is asked for.
    pub fn advance(self, ok: bool) -> (next: Save)
        ensures
            next@ == self@.advance(ok),
    {
        match self {
            Save::CreateDir { dir, payload } => {
                if ok {
                    let file = data_file(dir.as_str());
                    Save::WriteFile { file, payload }
                } else {
                    Save::Failed(SaveFault::CreateDir)
                }
            },
            Save::WriteFile { file, payload } => {
                if ok {
                    Save::Done
                } else {
                    Save::Failed(SaveFault::WriteFile)
                }
            },
            Save::Done => Save::Done,
            Save::Failed(fault) => Save::Failed(fault),
        }
    }
}

} // verus!
