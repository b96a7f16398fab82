//! The file system as the store sees it, and what the store's rules give
//! over it.
//!
//! The model holds the files that can be read as text. A path that is
//! absent from it stands for everything else: no file, a directory in its
//! place, revoked permissions, content that is not text. It describes a
//! disk that no other writer touches between two steps.

use vstd::prelude::*;
use crate::paths::data_file_path;
use crate::store::{loaded, SaveFault, SaveView, DEFAULT_PAYLOAD};

verus! {

/// The readable text files, by path.
pub type Disk = Map<Seq<char>, Seq<char>>;

/// What reading `file` returns on `disk`.
pub open spec fn read_file(disk: Disk, file: Seq<char>) -> Option<Seq<char>> {
    if disk.contains_key(file) {
        Some(disk[file])
    } else {
        None
    }
}

/// The disk after the step that `state` asks for has succeeded. Writing
/// replaces the whole content of the file; creating a directory changes no
/// file; a save that has ended asks for nothing.
pub open spec fn after_step(disk: Disk, state: SaveView) -> Disk {
    match state {
        SaveView::WriteFile { file, payload } => disk.insert(file, payload),
        _ => disk,
    }
}

/// The disk after a save of `payload` under `cache_dir` on which both steps
/// succeeded.
pub open spec fn after_save(disk: Disk, cache_dir: Seq<char>, payload: Seq<char>) -> Disk {
    let first = SaveView::start(cache_dir, payload);
    let second = first.advance(true);
    after_step(after_step(disk, first), second)
}

/// What a load under `cache_dir` returns on `disk`.
pub open spec fn load_on(disk: Disk, cache_dir: Seq<char>) -> Seq<char> {
    loaded(read_file(disk, data_file_path(cache_dir)))
}

/// The default payload is the two characters of an empty JSON object.
pub proof fn default_payload_is_empty_object()
    ensures
        DEFAULT_PAYLOAD@ == seq!['{', '}'],
{
    reveal_strlit("{}");
    assert(DEFAULT_PAYLOAD@ =~= seq!['{', '}']);
}

/// A save on which both steps succeed ends as done, and a load that follows
/// it returns exactly the payload that was saved, whatever the disk held
/// before.
pub proof fn save_then_load_returns_payload(disk: Disk, cache_dir: Seq<char>, payload: Seq<char>)
    ensures
        SaveView::start(cache_dir, payload).advance(true).advance(true) is Done,
        load_on(after_save(disk, cache_dir, payload), cache_dir) == payload,
{
}

/// Where the data file cannot be read, because nothing was saved yet or for
/// any other reason, a load returns the default payload.
pub proof fn load_without_readable_file_returns_default(disk: Disk, cache_dir: Seq<char>)
    requires
        !disk.contains_key(data_file_path(cache_dir)),
    ensures
        load_on(disk, cache_dir) == DEFAULT_PAYLOAD@,
{
}

/// A save replaces what an earlier save stored: after two saves the disk is
/// as if only the second had happened, and a load returns the second
/// payload.
pub proof fn last_save_wins(disk: Disk, cache_dir: Seq<char>, first: Seq<char>, second: Seq<char>)
    ensures
        after_save(after_save(disk, cache_dir, first), cache_dir, second) == after_save(
            disk,
            cache_dir,
            second,
        ),
        load_on(after_save(after_save(disk, cache_dir, first), cache_dir, second), cache_dir)
            == second,
{
    assert(after_save(after_save(disk, cache_dir, first), cache_dir, second) =~= after_save(
        disk,
        cache_dir,
        second,
    ));
}

/// A save touches the data file alone: every other file reads as before.
pub proof fn save_keeps_other_files(
    disk: Disk,
    cache_dir: Seq<char>,
    payload: Seq<char>,
    other: Seq<char>,
)
    requires
        other != data_file_path(cache_dir),
    ensures
        read_file(after_save(disk, cache_dir, payload), other) == read_file(disk, other),
{
}

/// A failed step is never passed over in silence. Where the directory
/// cannot be created the save ends in that fault and no write is asked for;
/// where the write fails it ends in that one; and a save is done only when
/// both steps succeeded.
pub proof fn failed_step_ends_in_fault(
    cache_dir: Seq<char>,
    payload: Seq<char>,
    dir_ok: bool,
    write_ok: bool,
)
    ensures
        !dir_ok ==> SaveView::start(cache_dir, payload).advance(dir_ok) == SaveView::Failed(
            SaveFault::CreateDir,
        ),
        !dir_ok ==> SaveView::start(cache_dir, payload).advance(dir_ok).advance(write_ok)
            == SaveView::Failed(SaveFault::CreateDir),
        dir_ok && !write_ok ==> SaveView::start(cache_dir, payload).advance(dir_ok).advance(
            write_ok,
        ) == SaveView::Failed(SaveFault::WriteFile),
        SaveView::start(cache_dir, payload).advance(dir_ok).advance(write_ok) is Done <==> dir_ok
            && write_ok,
{
}

} // verus!
