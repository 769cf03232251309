//! File names of recordings and of the files that sit beside them.
//!
//! Path manipulation itself is `std::path::Path`'s: the wrappers below call it on
//! UTF-8 text and give their results names; what this module adds is which names
//! are asked for and how they are put together.

use vstd::prelude::*;
use crate::text::chars_of;

verus! {

/// The text of `Path::parent` of the path `p`, when it has one.
pub uninterp spec fn path_parent(p: Seq<char>) -> Option<Seq<char>>;

/// The text of `Path::file_name` of the path `p`, when it has one.
pub uninterp spec fn path_file_name(p: Seq<char>) -> Option<Seq<char>>;

/// The text of `Path::join` of `base` and `part`.
pub uninterp spec fn path_join(base: Seq<char>, part: Seq<char>) -> Seq<char>;

/// The text of `Path::with_extension` of `p` and `ext`.
pub uninterp spec fn path_with_extension(p: Seq<char>, ext: Seq<char>) -> Seq<char>;

/// The view of an optional string.
pub open spec fn opt_string_view(s: Option<String>) -> Option<Seq<char>> {
    match s {
        Some(v) => Some(v@),
        None => None,
    }
}

/// Calls `std::path::Path::parent` on `p`; the contract claims that the text of the
/// result is `path_parent(p)`, a function of `p` alone. The parent of a path
/// made of UTF-8 text is UTF-8 text, so the conversion loses nothing.
#[verifier::external_body]
fn parent_of(p: &str) -> (r: Option<String>)
    ensures
        opt_string_view(r) == path_parent(p@),
{
    match std::path::Path::new(p).parent() {
        Some(q) => Some(q.to_string_lossy().into_owned()),
        None => None,
    }
}

/// Calls `std::path::Path::file_name` on `p`; the contract claims that the text of
/// the result is `path_file_name(p)`, a function of `p` alone.
#[verifier::external_body]
fn file_name_of(p: &str) -> (r: Option<String>)
    ensures
        opt_string_view(r) == path_file_name(p@),
{
    match std::path::Path::new(p).file_name() {
        Some(n) => Some(n.to_string_lossy().into_owned()),
        None => None,
    }
}

/// Calls `std::path::Path::join`; the contract claims that the text of the result
/// is `path_join(base, part)`, a function of its arguments alone.
#[verifier::external_body]
fn join_path(base: &str, part: &str) -> (r: String)
    ensures
        r@ == path_join(base@, part@),
{
    std::path::Path::new(base).join(part).to_string_lossy().into_owned()
}

/// Calls `std::path::Path::with_extension`; the contract claims that the text
/// of the result is `path_with_extension(p, ext)`, a function of its arguments
/// alone. `with_extension` panics when the extension holds a path separator,
/// so `ext` may hold no '/'.
#[verifier::external_body]
fn with_extension_of(p: &str, ext: &str) -> (r: String)
    requires
        forall|i: int| 0 <= i < ext@.len() ==> ext@[i] != '/',
    ensures
        r@ == path_with_extension(p@, ext@),
{
    std::path::Path::new(p).with_extension(ext).to_string_lossy().into_owned()
}

/// The prefix of every recording's file name.
pub open spec fn recording_prefix() -> Seq<char> {
    seq!['s', 'p', 'e', 'a', 'k', '-', 'i', 't', '-']
}

/// The suffix of every recording's file name.
pub open spec fn recording_suffix() -> Seq<char> {
    seq!['.', 'w', 'a', 'v']
}

/// A recording's file name starts with "speak-it-" and ends with ".wav".
pub open spec fn is_recording_name(name: Seq<char>) -> bool {
    &&& recording_prefix().is_prefix_of(name)
    &&& recording_suffix().is_suffix_of(name)
}

/// The directory of the staging file, given the final path's parent: the
/// parent itself, or "." when there is none.
pub open spec fn staging_dir(parent: Option<Seq<char>>) -> Seq<char> {
    match parent {
        Some(p) => p,
        None => "."@,
    }
}

/// The staging file's name, given the final path's file name: the hidden
/// ".<name>.part", named after "speak-it.wav" when there is no file name.
pub open spec fn staging_name(file_name: Option<Seq<char>>) -> Seq<char> {
    let name = match file_name {
        Some(n) => n,
        None => "speak-it.wav"@,
    };
    "."@ + name + ".part"@
}

/// The path where a recording is written while it is being made: a hidden
/// ".<name>.part" file beside the final one.
pub open spec fn staging_path(final_path: Seq<char>) -> Seq<char> {
    path_join(
        staging_dir(path_parent(final_path)),
        staging_name(path_file_name(final_path)),
    )
}

/// The transcript of a recording sits beside it with the extension "txt".
pub open spec fn transcript_path(audio_path: Seq<char>) -> Seq<char> {
    path_with_extension(audio_path, "txt"@)
}

/// The file name under which audio is uploaded: the path's own, else "audio.wav".
pub open spec fn upload_name(audio_path: Seq<char>) -> Seq<char> {
    match path_file_name(audio_path) {
        Some(n) => n,
        None => "audio.wav"@,
    }
}

/// The file name of the recording identified by `id`.
pub open spec fn recording_name(id: Seq<char>) -> Seq<char> {
    "speak-it-"@ + id + ".wav"@
}

/// The path where a recording is written while it is being made.
pub fn staging_recording_path(final_path: &str) -> (r: String)
    ensures
        r@ == staging_path(final_path@),
{
    let parent = parent_of(final_path);
    let name = file_name_of(final_path);
    let (dir, hidden) = staging_parts(parent, name);
    join_path(dir.as_str(), hidden.as_str())
}

/// The directory and the file name of the staging file, given the final
/// path's parent and file name (each `None` when the path has none).
pub fn staging_parts(parent: Option<String>, file_name: Option<String>) -> (r: (String, String))
    ensures
        r.0@ == staging_dir(opt_string_view(parent)),
        r.1@ == staging_name(opt_string_view(file_name)),
{
    let dir = match parent {
        Some(p) => p,
        None => String::from_str("."),
    };
    let name = match file_name {
        Some(n) => n,
        None => String::from_str("speak-it.wav"),
    };
    let hidden = String::from_str(".").concat(name.as_str()).concat(".part");
    (dir, hidden)
}

/// The path of the transcript written beside a recording.
pub fn transcript_output_path(audio_path: &str) -> (r: String)
    ensures
        r@ == transcript_path(audio_path@),
{
    proof {
        reveal_strlit("txt");
    }
    with_extension_of(audio_path, "txt")
}

/// The file name under which a recording is uploaded for transcription.
pub fn upload_file_name(audio_path: &str) -> (r: String)
    ensures
        r@ == upload_name(audio_path@),
{
    match file_name_of(audio_path) {
        Some(n) => n,
        None => String::from_str("audio.wav"),
    }
}

/// The file name of the recording identified by `id`: "speak-it-<id>.wav".
pub fn recording_file_name(id: &str) -> (r: String)
    ensures
        r@ == recording_name(id@),
{
    String::from_str("speak-it-").concat(id).concat(".wav")
}

/// Whether a file name is that of a recording: "speak-it-" at its start and
/// ".wav" at its end.
pub fn is_recording_file_name(name: &str) -> (r: bool)
    ensures
        r == is_recording_name(name@),
{
    let v = chars_of(name);
    let prefix: Vec<char> = vec!['s', 'p', 'e', 'a', 'k', '-', 'i', 't', '-'];
    let suffix: Vec<char> = vec!['.', 'w', 'a', 'v'];
    assert(prefix@ =~= recording_prefix());
    assert(suffix@ =~= recording_suffix());
    if v.len() < prefix.len() || v.len() < suffix.len() {
        return false;
    }
    let mut i: usize = 0;
    while i < prefix.len()
        invariant
            prefix@ == recording_prefix(),
            prefix.len() <= v.len(),
            v@ == name@,
            i <= prefix.len(),
            forall|j: int| 0 <= j < i ==> prefix@[j] == v@[j],
        decreases prefix.len() - i,
    {
        if v[i] != prefix[i] {
            assert(v@.subrange(0, prefix.len() as int)[i as int] != recording_prefix()[i as int]);
            return false;
        }
        i += 1;
    }
    let off = v.len() - suffix.len();
    let mut k: usize = 0;
    while k < suffix.len()
        invariant
            suffix@ == recording_suffix(),
            off + suffix.len() == v.len(),
            v@ == name@,
            k <= suffix.len(),
            forall|j: int| 0 <= j < k ==> suffix@[j] == v@[off + j],
        decreases suffix.len() - k,
    {
        if v[off + k] != suffix[k] {
            assert(v@.subrange(off as int, v.len() as int)[k as int] != recording_suffix()[k as int]);
            return false;
        }
        k += 1;
    }
    assert(recording_prefix() =~= v@.subrange(0, prefix.len() as int));
    assert(recording_suffix() =~= v@.subrange(off as int, v.len() as int));
    true
}

/// Every name that `recording_file_name` gives is one that pruning counts as
/// a recording.
pub proof fn lemma_recording_names_are_recordings(id: Seq<char>)
    ensures
        is_recording_name(recording_name(id)),
{
    reveal_strlit("speak-it-");
    reveal_strlit(".wav");
    let n = recording_name(id);
    assert(n.subrange(0, 9) =~= recording_prefix());
    assert(n.subrange(n.len() - 4, n.len() as int) =~= recording_suffix());
}

/// A staging file is never taken for a recording: its hidden name starts
/// with '.', not with "speak-it-".
pub proof fn lemma_staging_name_is_not_a_recording(file_name: Option<Seq<char>>)
    ensures
        !is_recording_name(staging_name(file_name)),
{
    reveal_strlit(".");
    let n = staging_name(file_name);
    assert(n[0] == '.');
    if is_recording_name(n) {
        assert(n.subrange(0, 9)[0] == recording_prefix()[0]);
    }
}

} // verus!
