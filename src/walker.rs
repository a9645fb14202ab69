use vstd::prelude::*;

use crate::movie_data::{file_name, file_name_of, is_candidate_of, MovieData, ParseError};
use crate::text::{chars_of, lower_of, rfind_before, rfind_char, str_eq, substring, to_lower};

verus! {

/// One entry of a directory listing of the share.
pub struct DirEntry {
    pub name: String,
    pub is_directory: bool,
}

impl DirEntry {
    pub fn new(name: &str, is_directory: bool) -> (r: DirEntry)
        ensures
            r.name@ == name@,
            r.is_directory == is_directory,
    {
        DirEntry { name: String::from_str(name), is_directory }
    }
}

// region: ---- PATHS ----
/// `name` under `dir`; the root directory is the empty path.
pub open spec fn join_path(dir: Seq<char>, name: Seq<char>) -> Seq<char> {
    if dir.len() == 0 {
        name
    } else {
        dir + "/"@ + name
    }
}

pub open spec fn is_dot_name(name: Seq<char>) -> bool {
    name == "."@ || name == ".."@
}

/// The extension of a file name: what follows its last `.`, if it has one.
pub open spec fn extension_of(name: Seq<char>) -> Option<Seq<char>> {
    match rfind_before(name, '.', name.len() as int) {
        Some(k) => Some(name.subrange(k + 1, name.len() as int)),
        None => None,
    }
}

/// The allow-list of video container extensions, lower case.
pub open spec fn is_video_extension(e: Seq<char>) -> bool {
    e == "mp4"@ || e == "mkv"@ || e == "avi"@ || e == "mov"@ || e == "flv"@ || e == "wmv"@ || e
        == "webm"@
}

pub open spec fn is_video_name(name: Seq<char>) -> bool {
    extension_of(name) matches Some(e) && is_video_extension(lower_of(e))
}

/// The denylist of folder names whose whole subtree holds bonus clips, lower case.
pub open spec fn is_featurette_lower(l: Seq<char>) -> bool {
    l == "featurettes"@ || l == "featurette"@ || l == "feat"@
}

/// A folder name on the denylist, in any case.
pub open spec fn is_featurette_name(name: Seq<char>) -> bool {
    is_featurette_lower(lower_of(name))
}

/// Whether a lower-case extension is on the video allow-list.
pub fn is_video_extension_text(e: &str) -> (r: bool)
    ensures
        r == is_video_extension(e@),
{
    str_eq(e, "mp4") || str_eq(e, "mkv") || str_eq(e, "avi") || str_eq(e, "mov") || str_eq(e, "flv")
        || str_eq(e, "wmv") || str_eq(e, "webm")
}

/// Whether a lower-case folder name is on the featurette denylist.
pub fn is_featurette_text(l: &str) -> (r: bool)
    ensures
        r == is_featurette_lower(l@),
{
    str_eq(l, "featurettes") || str_eq(l, "featurette") || str_eq(l, "feat")
}

/// Path of `name` under `path`.
pub fn join(path: &str, name: &str) -> (r: String)
    ensures
        r@ == join_path(path@, name@),
{
    if path.unicode_len() == 0 {
        String::from_str(name)
    } else {
        let mut s = String::from_str(path);
        s.append("/");
        s.append(name);
        s
    }
}

/// Path of a subdirectory entry, or `(false, "")` for `.` and `..`.
pub fn parse_sub_path(dir_entry: &DirEntry, path: &str) -> (r: (bool, String))
    ensures
        r.0 == !is_dot_name(dir_entry.name@),
        r.0 ==> r.1@ == join_path(path@, dir_entry.name@),
        !r.0 ==> r.1@.len() == 0,
{
    if str_eq(dir_entry.name.as_str(), ".") || str_eq(dir_entry.name.as_str(), "..") {
        return (false, String::new());
    }
    (true, join(path, dir_entry.name.as_str()))
}

/// Path of a file entry.
pub fn parse_file_path(file_entry: &DirEntry, path: &str) -> (r: String)
    ensures
        r@ == join_path(path@, file_entry.name@),
{
    join(path, file_entry.name.as_str())
}

/// Whether the extension of `file_name` is on the video allow-list, in any case.
pub fn is_video_file(file_name: &str) -> (r: bool)
    ensures
        r == is_video_name(file_name@),
{
    let chars = chars_of(file_name);
    match rfind_char(&chars, '.', chars.len()) {
        None => false,
        Some(k) => {
            let ext = to_lower(substring(file_name, k + 1, chars.len()).as_str());
            is_video_extension_text(ext.as_str())
        },
    }
}

/// Whether the folder that `file_path` ends with (its last `/` segment)
/// may hold movies.
pub fn is_not_featurette(file_path: &str) -> (r: bool)
    ensures
        r == !is_featurette_name(file_name_of(file_path@)),
{
    let name = file_name(file_path);
    !is_featurette_text(to_lower(name.as_str()).as_str())
}
// endregion

// region: ---- WALK ----
/// The subdirectories of `path`, from its listing, that the walk enters.
pub open spec fn kept_subdirs(path: Seq<char>, entries: Seq<DirEntry>) -> Seq<Seq<char>>
    decreases entries.len(),
{
    if entries.len() == 0 {
        Seq::empty()
    } else {
        let prev = kept_subdirs(path, entries.drop_last());
        let e = entries.last();
        if e.is_directory && !is_dot_name(e.name@) && !is_featurette_name(e.name@) {
            prev.push(join_path(path, e.name@))
        } else {
            prev
        }
    }
}

/// The video files of `path`, from its listing, as paths.
pub open spec fn video_paths(path: Seq<char>, entries: Seq<DirEntry>) -> Seq<Seq<char>>
    decreases entries.len(),
{
    if entries.len() == 0 {
        Seq::empty()
    } else {
        let prev = video_paths(path, entries.drop_last());
        let e = entries.last();
        if !e.is_directory && is_video_name(e.name@) {
            prev.push(join_path(path, e.name@))
        } else {
            prev
        }
    }
}

/// Depth-first walk of the share, one directory listing at a time: the
/// caller lists the directory that `next_directory` names and hands the
/// entries to `visit`, which yields that directory's candidates.
pub struct DirectoryWalker {
    /// Directories still to be listed; the last is listed next.
    pub pending: Vec<String>,
}

impl DirectoryWalker {
    /// A walk that starts at `root`.
    pub fn new(root: &str) -> (r: DirectoryWalker)
        ensures
            r.pending@.len() == 1,
            r.pending@[0]@ == root@,
    {
        let mut pending: Vec<String> = Vec::new();
        pending.push(String::from_str(root));
        DirectoryWalker { pending }
    }

    /// Whether every directory has been listed.
    pub fn is_done(&self) -> (r: bool)
        ensures
            r == (self.pending@.len() == 0),
    {
        self.pending.len() == 0
    }

    /// The next directory to list, taken off the walk; `None` once the walk is over.
    pub fn next_directory(&mut self) -> (r: Option<String>)
        ensures
            old(self).pending@.len() == 0 ==> r is None && final(self).pending@.len() == 0,
            old(self).pending@.len() > 0 ==> r == Some(old(self).pending@.last())
                && final(self).pending@ == old(self).pending@.drop_last(),
    {
        self.pending.pop()
    }

    /// Takes the listing of `path`: schedules the subdirectories to enter
    /// (not `.`, `..` nor a featurette folder) and returns, in listing
    /// order, the candidate or parse error of each video file.
    pub fn visit(&mut self, path: &str, entries: &Vec<DirEntry>) -> (r: Vec<Result<MovieData, ParseError>>)
        ensures
            final(self).pending@.map_values(|s: String| s@) == old(self).pending@.map_values(|s: String| s@)
                + kept_subdirs(path@, entries@),
            r@.len() == video_paths(path@, entries@).len(),
            forall|i: int| 0 <= i < r@.len() ==> is_candidate_of(#[trigger] video_paths(path@, entries@)[i], r@[i]),
    {
        let ghost pending0 = self.pending@.map_values(|s: String| s@);
        let mut out: Vec<Result<MovieData, ParseError>> = Vec::new();
        let mut i: usize = 0;
        while i < entries.len()
            invariant
                i <= entries@.len(),
                self.pending@.map_values(|s: String| s@) == pending0 + kept_subdirs(path@, entries@.subrange(0, i as int)),
                out@.len() == video_paths(path@, entries@.subrange(0, i as int)).len(),
                forall|k: int| 0 <= k < out@.len() ==> is_candidate_of(#[trigger] video_paths(path@, entries@.subrange(0, i as int))[k], out@[k]),
            decreases entries@.len() - i,
        {
            let ghost before = entries@.subrange(0, i as int);
            let ghost after = entries@.subrange(0, i + 1);
            assert(after.drop_last() =~= before);
            let ghost vp = video_paths(path@, before);
            let ghost pending_before = self.pending@;
            let e = &entries[i];
            if e.is_directory {
                let (is_valid, sub_path) = parse_sub_path(e, path);
                if is_valid && !is_featurette_text(to_lower(e.name.as_str()).as_str()) {
                    self.pending.push(sub_path);
                    assert(self.pending@.map_values(|s: String| s@) =~= pending_before.map_values(|s: String| s@).push(sub_path@));
                }
            } else if is_video_file(e.name.as_str()) {
                let file_path = parse_file_path(e, path);
                let movie = MovieData::new(file_path.as_str());
                out.push(movie);
                assert forall|k: int| 0 <= k < out@.len() implies is_candidate_of(#[trigger] video_paths(path@, after)[k], out@[k]) by {
                    if k < vp.len() {
                        assert(video_paths(path@, after)[k] == vp[k]);
                    }
                }
            }
            i = i + 1;
        }
        assert(entries@.subrange(0, entries@.len() as int) =~= entries@);
        out
    }
}
// endregion

} // verus!
