//! The change watcher: remembers when each file was last seen modified and
//! decides, listing by listing, which files have changed since.

use crate::text::same_text;
use vstd::prelude::*;

verus! {

/// A modification time: seconds and nanoseconds within the second.
#[derive(Debug, Clone, Copy, PartialEq, Eq, Structural)]
pub struct ModTime {
    pub seconds: i64,
    pub nanos: u32,
}

impl ModTime {
    /// Whether this time is strictly later than `other`.
    pub open spec fn later_than(self, other: ModTime) -> bool {
        self.seconds > other.seconds || (self.seconds == other.seconds && self.nanos
            > other.nanos)
    }

    /// Whether this time is strictly later than `other`.
    pub fn is_later_than(&self, other: &ModTime) -> (r: bool)
        ensures
            r == self.later_than(*other),
    {
        self.seconds > other.seconds || (self.seconds == other.seconds && self.nanos
            > other.nanos)
    }
}

/// `later_than` is a strict total order on modification times: no time is
/// later than itself, of two different times one is the later, and later
/// than later is later.
pub proof fn lemma_later_than_is_strict_order(a: ModTime, b: ModTime, c: ModTime)
    ensures
        !a.later_than(a),
        a != b ==> (a.later_than(b) <==> !b.later_than(a)),
        a.later_than(b) && b.later_than(c) ==> a.later_than(c),
{
}

/// A regular file as one listing of the directory shows it.
#[derive(Debug, PartialEq, Eq)]
pub struct FileStamp {
    pub path: String,
    pub modified: ModTime,
}

/// The signal that the file at `path` is to be synced now.
#[derive(Debug, PartialEq, Eq)]
pub struct ChangeEvent {
    pub path: String,
}

/// What the watcher remembers: for each path seen, the latest modification
/// time seen of it.
pub type WatchState = Map<Seq<char>, ModTime>;

/// Whether observing a file at this time is a change: the path has been
/// seen before, and with an earlier time.
pub open spec fn is_change(state: WatchState, path: Seq<char>, modified: ModTime) -> bool {
    state.contains_key(path) && modified.later_than(state[path])
}

/// The state after observing a file: a path not seen before is recorded, a
/// newer time replaces the recorded one, and nothing else changes.
pub open spec fn observed(state: WatchState, path: Seq<char>, modified: ModTime) -> WatchState {
    if !state.contains_key(path) || is_change(state, path, modified) {
        state.insert(path, modified)
    } else {
        state
    }
}

/// The state after observing `files[from..to]` in order.
pub open spec fn scanned(state: WatchState, files: Seq<FileStamp>, from: int, to: int) -> WatchState
    decreases to - from,
{
    if to <= from {
        state
    } else {
        observed(
            scanned(state, files, from, to - 1),
            files[to - 1].path@,
            files[to - 1].modified,
        )
    }
}

/// Whether a scan of `files` that begins at `from` finds `files[k]` changed.
pub open spec fn changed_at(state: WatchState, files: Seq<FileStamp>, from: int, k: int) -> bool {
    is_change(scanned(state, files, from, k), files[k].path@, files[k].modified)
}

/// Whether a scan that begins at `from` finds none of `files[from..to]`
/// changed.
pub open spec fn quiet(state: WatchState, files: Seq<FileStamp>, from: int, to: int) -> bool {
    forall|k: int| from <= k < to ==> !#[trigger] changed_at(state, files, from, k)
}

/// Whether no path occurs twice in a listing.
pub open spec fn distinct_paths(files: Seq<FileStamp>) -> bool {
    forall|i: int, j: int|
        0 <= i < j < files.len() ==> (#[trigger] files[i]).path@ != (#[trigger] files[j]).path@
}

/// The position of the first entry for `path` among `entries[from..]`.
pub open spec fn slot_from(entries: Seq<FileStamp>, path: Seq<char>, from: int) -> Option<int>
    decreases entries.len() - from,
{
    if from < 0 || from >= entries.len() {
        None
    } else if entries[from].path@ == path {
        Some(from)
    } else {
        slot_from(entries, path, from + 1)
    }
}

/// The time recorded for `path` in a list of entries: that of its first
/// entry.
pub open spec fn recorded(entries: Seq<FileStamp>, path: Seq<char>) -> Option<ModTime> {
    match slot_from(entries, path, 0) {
        Some(i) => Some(entries[i].modified),
        None => None,
    }
}

proof fn lemma_slot_from(entries: Seq<FileStamp>, path: Seq<char>, from: int)
    requires
        0 <= from,
    ensures
        match slot_from(entries, path, from) {
            Some(i) => from <= i < entries.len() && entries[i].path@ == path && forall|k: int|
                from <= k < i ==> (#[trigger] entries[k]).path@ != path,
            None => forall|k: int|
                from <= k < entries.len() ==> (#[trigger] entries[k]).path@ != path,
        },
    decreases entries.len() - from,
{
    if from < entries.len() && entries[from].path@ != path {
        lemma_slot_from(entries, path, from + 1);
    }
}

proof fn lemma_slot_found(entries: Seq<FileStamp>, path: Seq<char>, i: int)
    requires
        0 <= i < entries.len(),
        entries[i].path@ == path,
        forall|k: int| 0 <= k < i ==> (#[trigger] entries[k]).path@ != path,
    ensures
        slot_from(entries, path, 0) == Some(i),
{
    lemma_slot_from(entries, path, 0);
}

proof fn lemma_slot_absent(entries: Seq<FileStamp>, path: Seq<char>)
    requires
        forall|k: int| 0 <= k < entries.len() ==> (#[trigger] entries[k]).path@ != path,
    ensures
        slot_from(entries, path, 0) is None,
{
    lemma_slot_from(entries, path, 0);
}

/// The change watcher.
pub struct FileChecker {
    last_modified: Vec<FileStamp>,
}

impl View for FileChecker {
    type V = WatchState;

    closed spec fn view(&self) -> WatchState {
        Map::new(
            |path: Seq<char>| recorded(self.last_modified@, path) is Some,
            |path: Seq<char>| recorded(self.last_modified@, path).unwrap(),
        )
    }
}

impl FileChecker {
    /// A watcher that has seen no file yet.
    pub fn new() -> (r: FileChecker)
        ensures
            r@ == Map::<Seq<char>, ModTime>::empty(),
    {
        let r = FileChecker { last_modified: Vec::new() };
        assert(r@ =~= Map::<Seq<char>, ModTime>::empty());
        r
    }

    fn find(&self, path: &str) -> (r: Option<usize>)
        ensures
            match r {
                Some(i) => slot_from(self.last_modified@, path@, 0) == Some(i as int) && i
                    < self.last_modified.len(),
                None => slot_from(self.last_modified@, path@, 0) is None,
            },
    {
        let mut i: usize = 0;
        while i < self.last_modified.len()
            invariant
                i <= self.last_modified.len(),
                slot_from(self.last_modified@, path@, 0) == slot_from(
                    self.last_modified@,
                    path@,
                    i as int,
                ),
            decreases self.last_modified.len() - i,
        {
            if same_text(self.last_modified[i].path.as_str(), path) {
                return Some(i);
            }
            i = i + 1;
        }
        None
    }

    /// The time recorded for a path, if it has been seen.
    pub fn last_seen(&self, path: &str) -> (r: Option<ModTime>)
        ensures
            r is Some <==> self@.contains_key(path@),
            r matches Some(t) ==> self@[path@] == t,
    {
        match self.find(path) {
            Some(i) => Some(self.last_modified[i].modified),
            None => None,
        }
    }

    /// Observes one file of a listing. Returns whether the file has changed
    /// since it was last observed. The first sight of a path is recorded
    /// and is no change.
    pub fn observe(&mut self, path: &str, modified: ModTime) -> (changed: bool)
        ensures
            changed == is_change(old(self)@, path@, modified),
            final(self)@ == observed(old(self)@, path@, modified),
    {
        let ghost before = self.last_modified@;
        match self.find(path) {
            None => {
                self.last_modified.push(FileStamp { path: String::from_str(path), modified });
                proof {
                    let after = self.last_modified@;
                    lemma_slot_from(before, path@, 0);
                    lemma_slot_found(after, path@, before.len() as int);
                    assert forall|q: Seq<char>| q != path@ implies recorded(after, q) == recorded(
                        before,
                        q,
                    ) by {
                        lemma_slot_from(before, q, 0);
                        match slot_from(before, q, 0) {
                            Some(i) => {
                                lemma_slot_found(after, q, i);
                            },
                            None => {
                                lemma_slot_absent(after, q);
                            },
                        }
                    }
                    assert(self@ =~= observed(old(self)@, path@, modified));
                }
                false
            },
            Some(i) => {
                let changed = modified.is_later_than(&self.last_modified[i].modified);
                if changed {
                    self.last_modified[i].modified = modified;
                    proof {
                        let after = self.last_modified@;
                        lemma_slot_from(before, path@, 0);
                        lemma_slot_found(after, path@, i as int);
                        assert forall|q: Seq<char>| q != path@ implies recorded(after, q)
                            == recorded(before, q) by {
                            lemma_slot_from(before, q, 0);
                            match slot_from(before, q, 0) {
                                Some(k) => {
                                    lemma_slot_found(after, q, k);
                                },
                                None => {
                                    lemma_slot_absent(after, q);
                                },
                            }
                        }
                        assert(self@ =~= observed(old(self)@, path@, modified));
                    }
                }
                changed
            },
        }
    }

    /// Goes on with a listing at `files[from..]`: observes the files in
    /// order up to and including the first that has changed. Returns the
    /// event for that file and where to go on afterwards, or `None` where
    /// the rest of the listing holds no change (as it does where `from` is
    /// at or behind its end).
    pub fn check_directory(&mut self, files: &Vec<FileStamp>, from: usize) -> (r: Option<
        (usize, ChangeEvent),
    >)
        ensures
            match r {
                Some((next, event)) => {
                    &&& from < next <= files.len()
                    &&& event.path == files[next - 1].path
                    &&& quiet(old(self)@, files@, from as int, next - 1)
                    &&& changed_at(old(self)@, files@, from as int, next - 1)
                    &&& final(self)@ == scanned(old(self)@, files@, from as int, next as int)
                },
                None => {
                    &&& quiet(old(self)@, files@, from as int, files.len() as int)
                    &&& final(self)@ == scanned(
                        old(self)@,
                        files@,
                        from as int,
                        files.len() as int,
                    )
                },
            },
    {
        if from >= files.len() {
            return None;
        }
        let mut i: usize = from;
        while i < files.len()
            invariant
                from <= i <= files.len(),
                quiet(old(self)@, files@, from as int, i as int),
                self@ == scanned(old(self)@, files@, from as int, i as int),
            decreases files.len() - i,
        {
            let changed = self.observe(files[i].path.as_str(), files[i].modified);
            i = i + 1;
            if changed {
                return Some((i, ChangeEvent { path: files[i - 1].path.clone() }));
            }
        }
        None
    }
}

/// Observing a file forgets nothing and turns no record back: every path
/// recorded before is recorded after, with a time that is not earlier.
pub proof fn lemma_observing_only_adds(
    state: WatchState,
    path: Seq<char>,
    modified: ModTime,
    other: Seq<char>,
)
    requires
        state.contains_key(other),
    ensures
        observed(state, path, modified).contains_key(other),
        !state[other].later_than(observed(state, path, modified)[other]),
        observed(state, path, modified).contains_key(path),
        !modified.later_than(observed(state, path, modified)[path]),
{
}

/// A scan forgets nothing and turns no record back.
pub proof fn lemma_scanning_only_adds(
    state: WatchState,
    files: Seq<FileStamp>,
    from: int,
    to: int,
    other: Seq<char>,
)
    requires
        state.contains_key(other),
    ensures
        scanned(state, files, from, to).contains_key(other),
        !state[other].later_than(scanned(state, files, from, to)[other]),
    decreases to - from,
{
    if from < to {
        lemma_scanning_only_adds(state, files, from, to - 1, other);
        let before = scanned(state, files, from, to - 1);
        lemma_observing_only_adds(before, files[to - 1].path@, files[to - 1].modified, other);
        lemma_later_than_is_strict_order(
            state[other],
            before[other],
            scanned(state, files, from, to)[other],
        );
    }
}

/// Scanning nothing changes nothing, and a scan can be taken up where an
/// earlier one stopped: two scans in a row are one.
pub proof fn lemma_scan_resumes(state: WatchState, files: Seq<FileStamp>, a: int, b: int, c: int)
    requires
        a <= b <= c,
    ensures
        scanned(state, files, a, a) == state,
        scanned(scanned(state, files, a, b), files, b, c) == scanned(state, files, a, c),
    decreases c - b,
{
    if b < c {
        lemma_scan_resumes(state, files, a, b, c - 1);
    }
}

/// A scan that is taken up again finds the same files changed as one that
/// runs through: the events of a listing do not depend on where the scan
/// paused.
pub proof fn lemma_resumed_scan_finds_same_changes(
    state: WatchState,
    files: Seq<FileStamp>,
    a: int,
    b: int,
    k: int,
)
    requires
        a <= b <= k,
    ensures
        changed_at(scanned(state, files, a, b), files, b, k) == changed_at(state, files, a, k),
{
    lemma_scan_resumes(state, files, a, b, k);
}

/// A scan leaves alone what it has recorded for the paths that it did not
/// come across.
pub proof fn lemma_scan_keeps_others(
    state: WatchState,
    files: Seq<FileStamp>,
    to: int,
    path: Seq<char>,
)
    requires
        0 <= to <= files.len(),
        forall|k: int| 0 <= k < to ==> (#[trigger] files[k]).path@ != path,
    ensures
        scanned(state, files, 0, to).contains_key(path) == state.contains_key(path),
        state.contains_key(path) ==> scanned(state, files, 0, to)[path] == state[path],
    decreases to,
{
    if to > 0 {
        lemma_scan_keeps_others(state, files, to - 1, path);
        assert(files[to - 1].path@ != path);
    }
}

/// Whether a listing names the path of `files[k]` at no other place.
pub open spec fn named_once(files: Seq<FileStamp>, k: int) -> bool {
    forall|j: int| 0 <= j < files.len() && j != k ==> (#[trigger] files[j]).path@ != files[k].path@
}

/// The first sight of a file is no change: a scan emits nothing for a path
/// that the watcher had not recorded and that the listing has not named
/// before, and records the time that it saw.
pub proof fn lemma_first_sight_is_no_change(state: WatchState, files: Seq<FileStamp>, k: int)
    requires
        0 <= k < files.len(),
        !state.contains_key(files[k].path@),
        forall|j: int| 0 <= j < k ==> (#[trigger] files[j]).path@ != files[k].path@,
    ensures
        !changed_at(state, files, 0, k),
        scanned(state, files, 0, k + 1)[files[k].path@] == files[k].modified,
{
    lemma_scan_keeps_others(state, files, k, files[k].path@);
}

/// What a scan records for `files[k]` stays while the scan goes on, where
/// the listing names that path once.
pub proof fn lemma_scan_keeps_rest(state: WatchState, files: Seq<FileStamp>, k: int, to: int)
    requires
        named_once(files, k),
        0 <= k < to <= files.len(),
    ensures
        scanned(state, files, 0, to).contains_key(files[k].path@),
        scanned(state, files, 0, to)[files[k].path@] == scanned(state, files, 0, k + 1)[files[k].path@],
    decreases to - k,
{
    if to > k + 1 {
        lemma_scan_keeps_rest(state, files, k, to - 1);
        assert(files[to - 1].path@ != files[k].path@);
    }
}

/// A file whose modification time has grown since it was recorded is
/// reported once: where the listing names it once, the scan finds it
/// changed at that place, and the new time is recorded, so that the same
/// listing again reports nothing for it.
pub proof fn lemma_newer_file_is_reported_once(state: WatchState, files: Seq<FileStamp>, k: int)
    requires
        named_once(files, k),
        0 <= k < files.len(),
        state.contains_key(files[k].path@),
        files[k].modified.later_than(state[files[k].path@]),
    ensures
        changed_at(state, files, 0, k),
        scanned(state, files, 0, files.len() as int)[files[k].path@] == files[k].modified,
        !changed_at(scanned(state, files, 0, files.len() as int), files, 0, k),
{
    let path = files[k].path@;
    assert forall|j: int| 0 <= j < k implies (#[trigger] files[j]).path@ != path by {}
    lemma_scan_keeps_others(state, files, k, path);
    let end = scanned(state, files, 0, files.len() as int);
    lemma_scan_keeps_rest(state, files, k, files.len() as int);
    lemma_scan_keeps_others(end, files, k, path);
}

/// A listing in which no path occurs twice names each of its paths once.
pub proof fn lemma_distinct_paths_are_named_once(files: Seq<FileStamp>, k: int)
    requires
        distinct_paths(files),
        0 <= k < files.len(),
    ensures
        named_once(files, k),
{
    assert forall|j: int| 0 <= j < files.len() && j != k implies (#[trigger] files[j]).path@
        != files[k].path@ by {
        if j < k {
            assert(files[j].path@ != files[k].path@);
        } else {
            assert(files[k].path@ != files[j].path@);
        }
    }
}

} // verus!
