//! The library of audio files: one entry per track, found by its number.

use vstd::prelude::*;

verus! {

/// The path and length of one audio file.
#[derive(Debug)]
pub struct AudioFile {
    /// Where the file lies below the asset folder, with forward slashes.
    pub path: String,
    /// How long the file plays at normal speed, in milliseconds.
    pub duration: u32,
}

/// The number that stands for a track nobody has registered.
pub const UNKNOWN_TRACK: u64 = u64::MAX;

/// The audio files of a game. A track is the number of its entry, counted from
/// zero in the order in which the files were added; every other number is an
/// unknown track.
#[derive(Debug)]
pub struct AudioFiles {
    files: Vec<AudioFile>,
}

/// The first entry of `files` at or after `from` whose path is `path`.
pub open spec fn first_with_path(files: Seq<AudioFile>, path: Seq<char>, from: int) -> Option<int>
    decreases files.len() - from,
{
    if from < 0 || from >= files.len() {
        None
    } else if files[from].path@ == path {
        Some(from)
    } else {
        first_with_path(files, path, from + 1)
    }
}

/// `path` with every backslash turned into a forward slash.
pub open spec fn slashed(path: Seq<char>) -> Seq<char> {
    Seq::new(
        path.len(),
        |at: int|
            if path[at] == '\\' {
                '/'
            } else {
                path[at]
            },
    )
}

/// `str::replace`, asked to replace the backslash by a forward slash: the
/// characters of `path` in their order, with a forward slash wherever `path`
/// has a backslash.
#[verifier::external_body]
fn with_forward_slashes(path: &str) -> (normal: String)
    ensures
        normal@ == slashed(path@),
{
    path.replace('\\', "/")
}

impl View for AudioFiles {
    type V = Seq<AudioFile>;

    closed spec fn view(&self) -> Seq<AudioFile> {
        self.files@
    }
}

impl AudioFiles {
    /// Whether `track` is one of these files.
    pub open spec fn knows(self, track: u64) -> bool {
        track < self@.len()
    }

    /// The length of `track` in milliseconds, zero for an unknown track.
    pub open spec fn duration_of(self, track: u64) -> int {
        if self.knows(track) {
            self@[track as int].duration as int
        } else {
            0
        }
    }

    /// A library without files.
    pub fn new() -> (library: Self)
        ensures
            library@ == Seq::<AudioFile>::empty(),
    {
        AudioFiles { files: Vec::new() }
    }

    /// Adds a file and returns its track.
    pub fn add(&mut self, file: AudioFile) -> (track: u64)
        ensures
            final(self)@ == old(self)@.push(file),
            track == old(self)@.len(),
    {
        let track: u64 = self.files.len() as u64;
        self.files.push(file);
        track
    }

    /// How many files there are.
    pub fn len(&self) -> (count: u64)
        ensures
            count == self@.len(),
    {
        self.files.len() as u64
    }

    /// Whether `track` is one of these files.
    pub fn contains(&self, track: u64) -> (known: bool)
        ensures
            known == self.knows(track),
    {
        track < self.files.len() as u64
    }

    /// The entry of `track`, if it is known.
    pub fn get(&self, track: u64) -> (file: Option<&AudioFile>)
        ensures
            file == (if self.knows(track) {
                Some(&self@[track as int])
            } else {
                None
            }),
    {
        if track < self.files.len() as u64 {
            Some(&self.files[track as usize])
        } else {
            None
        }
    }

    /// The length of `track` in milliseconds, if the track is known.
    pub fn length(&self, track: u64) -> (length: Option<u32>)
        ensures
            length == (if self.knows(track) {
                Some(self@[track as int].duration)
            } else {
                None
            }),
    {
        if track < self.files.len() as u64 {
            Some(self.files[track as usize].duration)
        } else {
            None
        }
    }

    /// The length of `track` in milliseconds, zero for an unknown track.
    pub fn duration(&self, track: u64) -> (duration: u32)
        ensures
            duration == self.duration_of(track),
    {
        if track < self.files.len() as u64 {
            self.files[track as usize].duration
        } else {
            0
        }
    }

    /// The track whose file lies at `path`, written with either kind of
    /// slash: the first one added, where several do. `UNKNOWN_TRACK` where
    /// none does.
    pub fn find(&self, path: &str) -> (track: u64)
        ensures
            track == (match first_with_path(self@, slashed(path@), 0) {
                Some(index) => index as u64,
                None => UNKNOWN_TRACK,
            }),
            track != UNKNOWN_TRACK ==> self.knows(track),
    {
        let wanted: String = with_forward_slashes(path);
        let mut index: usize = 0;
        while index < self.files.len()
            invariant
                index <= self.files.len(),
                wanted@ == slashed(path@),
                first_with_path(self@, wanted@, 0) == first_with_path(self@, wanted@, index as int),
            decreases self.files.len() - index,
        {
            if self.files[index].path == wanted {
                proof {
                    lemma_found_is_known(self@, wanted@, index as int);
                }
                return index as u64;
            }
            index += 1;
        }
        UNKNOWN_TRACK
    }
}

/// What `first_with_path` finds is an entry with that path, at or after the
/// place where the search began.
pub proof fn lemma_found_is_known(files: Seq<AudioFile>, path: Seq<char>, from: int)
    requires
        0 <= from,
    ensures
        match first_with_path(files, path, from) {
            Some(index) => from <= index < files.len() && files[index].path@ == path,
            None => forall|later: int|
                from <= later < files.len() ==> files[later].path@ != path,
        },
    decreases files.len() - from,
{
    if 0 <= from < files.len() && files[from].path@ != path {
        lemma_found_is_known(files, path, from + 1);
    }
}

} // verus!
