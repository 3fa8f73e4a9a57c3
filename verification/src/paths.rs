//! File paths. What a path's stem or extension is, and how two paths are
//! joined, `std::path` says by the rules of the platform that the library is
//! built for; what is decided from that is decided here.

use vstd::prelude::*;
use crate::text::{chars_eq, trimmed};

verus! {

/// What `Path::extension` gives for a path, as text: the part of the path's
/// file name behind its last dot, if the file name has one. A path is read by
/// the rules of the platform that the library is built for; there the same
/// text always gives the same result.
pub uninterp spec fn extension_of(path: Seq<char>) -> Option<Seq<char>>;

/// What `Path::file_stem` gives for a path, as text: the path's file name
/// without its extension, if the path has a file name. Read by the
/// platform's rules, as `extension_of` is.
pub uninterp spec fn file_stem_of(path: Seq<char>) -> Option<Seq<char>>;

/// What `Path::with_extension` gives for a path and an extension, as text:
/// the path with the extension of its file name replaced, or added where it
/// has none. Read by the platform's rules, as `extension_of` is.
pub uninterp spec fn with_extension_of(path: Seq<char>, extension: Seq<char>) -> Seq<char>;

/// What `Path::join` gives for two paths, as text: `child` below `base`, or
/// `child` alone where it is absolute. Read by the platform's rules, as
/// `extension_of` is.
pub uninterp spec fn joined_path(base: Seq<char>, child: Seq<char>) -> Seq<char>;

/// The characters of an optional string.
pub open spec fn opt_path_text(s: Option<String>) -> Option<Seq<char>> {
    match s {
        Some(t) => Some(t@),
        None => None,
    }
}

/// Whether a text holds no slash of either kind.
pub open spec fn no_separator(s: Seq<char>) -> bool {
    forall|i: int| 0 <= i < s.len() ==> s[i] != '/' && s[i] != '\\'
}

/// Calls `Path::extension` and hands the extension back as text. The
/// contract names the result as a function of the path's text.
#[verifier::external_body]
pub(crate) fn path_extension(path: &str) -> (r: Option<String>)
    ensures
        opt_path_text(r) == extension_of(path@),
{
    std::path::Path::new(path).extension().and_then(|e| e.to_str()).map(|e| e.to_string())
}

/// Calls `Path::file_stem` and hands the stem back as text. The contract
/// names the result as a function of the path's text.
#[verifier::external_body]
pub(crate) fn path_file_stem(path: &str) -> (r: Option<String>)
    ensures
        opt_path_text(r) == file_stem_of(path@),
{
    std::path::Path::new(path).file_stem().and_then(|e| e.to_str()).map(|e| e.to_string())
}

/// Calls `Path::with_extension` and hands the new path back as text. The
/// contract names the result as a function of the two texts. An extension
/// with a separator in it makes `std` panic, so none is taken.
#[verifier::external_body]
pub(crate) fn path_with_extension(path: &str, extension: &str) -> (r: String)
    requires
        no_separator(extension@),
    ensures
        r@ == with_extension_of(path@, extension@),
{
    std::path::Path::new(path).with_extension(extension).to_string_lossy().into_owned()
}

/// Calls `Path::join` and hands the joined path back as text. The contract
/// names the result as a function of the two texts.
#[verifier::external_body]
pub(crate) fn path_join(base: &str, child: &str) -> (r: String)
    ensures
        r@ == joined_path(base@, child@),
{
    std::path::Path::new(base).join(child).to_string_lossy().into_owned()
}

/// Whether two texts are equal but for the case of their ASCII letters.
pub open spec fn same_ignoring_case(a: Seq<char>, b: Seq<char>) -> bool {
    crate::text::ascii_lowercase(a) == crate::text::ascii_lowercase(b)
}

/// Compares two texts without regard to the case of their ASCII letters.
pub fn eq_ignore_ascii_case(a: &str, b: &str) -> (r: bool)
    ensures
        r == same_ignoring_case(a@, b@),
{
    let x = crate::recorder::lowercase_chars(a);
    let y = crate::recorder::lowercase_chars(b);
    chars_eq(&x, &y)
}

/// Whether a recording with this extension is re-wrapped after it is
/// closed: only the native container is.
pub fn remux_wanted(extension: Option<&str>) -> (r: bool)
    ensures
        r == (extension is Some && same_ignoring_case(extension->0@, "flv"@)),
{
    match extension {
        Some(e) => eq_ignore_ascii_case(e, "flv"),
        None => false,
    }
}

/// Whether a playlist recording keeps a file name with this extension: a
/// transport stream, a fragment or a portable container.
pub fn playlist_extension_kept(extension: Option<&str>) -> (r: bool)
    ensures
        r == (extension is Some && (same_ignoring_case(extension->0@, "ts"@)
            || same_ignoring_case(extension->0@, "m4s"@) || same_ignoring_case(
            extension->0@,
            "mp4"@,
        ))),
{
    match extension {
        Some(e) => eq_ignore_ascii_case(e, "ts") || eq_ignore_ascii_case(e, "m4s")
            || eq_ignore_ascii_case(e, "mp4"),
        None => false,
    }
}

/// The file that a playlist stream is recorded to, given the extension of
/// `path` and `path` with the extension of a transport stream: `path` where
/// its extension is kept, else the other.
pub fn choose_playlist_path(path: &str, extension: Option<&str>, transport_path: String) -> (r:
    String)
    ensures
        r@ == if extension is Some && (same_ignoring_case(extension->0@, "ts"@)
            || same_ignoring_case(extension->0@, "m4s"@) || same_ignoring_case(
            extension->0@,
            "mp4"@,
        )) {
            path@
        } else {
            transport_path@
        },
{
    if playlist_extension_kept(extension) {
        String::from_str(path)
    } else {
        transport_path
    }
}

/// Whether a playlist recording keeps a file name whose extension is
/// `extension`.
pub open spec fn extension_kept(extension: Option<Seq<char>>) -> bool {
    extension is Some && (same_ignoring_case(extension->0, "ts"@) || same_ignoring_case(
        extension->0,
        "m4s"@,
    ) || same_ignoring_case(extension->0, "mp4"@))
}

/// The file that a playlist stream is recorded to: `path` where its
/// extension is kept, else `path` with the extension of a transport stream.
pub fn normalize_hls_path(path: &str) -> (r: String)
    ensures
        r@ == if extension_kept(extension_of(path@)) {
            path@
        } else {
            with_extension_of(path@, "ts"@)
        },
{
    let extension = path_extension(path);
    proof {
        reveal_strlit("ts");
    }
    let transport_path = path_with_extension(path, "ts");
    match &extension {
        Some(e) => choose_playlist_path(path, Some(e.as_str()), transport_path),
        None => choose_playlist_path(path, None, transport_path),
    }
}

/// The job that re-wraps a closed segment.
#[derive(Debug)]
pub struct RemuxJob {
    pub record_id: i64,
    pub source: String,
    pub target: String,
    pub arguments: Vec<String>,
}

/// The arguments with which the transcoder copies `source` into `target`.
pub open spec fn remux_arguments(source: Seq<char>, target: Seq<char>) -> Seq<Seq<char>> {
    seq![
        "-hide_banner"@,
        "-loglevel"@,
        "error"@,
        "-y"@,
        "-i"@,
        source,
        "-c"@,
        "copy"@,
        target,
    ]
}

/// Builds the arguments with which the transcoder copies `source` into
/// `target`.
pub fn build_remux_arguments(source: &str, target: &str) -> (r: Vec<String>)
    ensures
        crate::upload_queue::texts_of(r@) == remux_arguments(source@, target@),
{
    let mut args: Vec<String> = Vec::new();
    args.push(String::from_str("-hide_banner"));
    args.push(String::from_str("-loglevel"));
    args.push(String::from_str("error"));
    args.push(String::from_str("-y"));
    args.push(String::from_str("-i"));
    args.push(String::from_str(source));
    args.push(String::from_str("-c"));
    args.push(String::from_str("copy"));
    args.push(String::from_str(target));
    assert(crate::upload_queue::texts_of(args@) =~= remux_arguments(source@, target@));
    args
}

/// The job that re-wraps the closed segment `file_path`, if it is in the
/// native container, which its extension tells: the transcoder copies it
/// into a file of the same name with the extension of the portable
/// container.
pub fn spawn_segment_remux(record_id: i64, file_path: &str) -> (r: Option<RemuxJob>)
    ensures
        match r {
            Some(job) => {
                &&& extension_of(file_path@) is Some
                &&& same_ignoring_case(extension_of(file_path@)->0, "flv"@)
                &&& job.record_id == record_id
                &&& job.source@ == file_path@
                &&& job.target@ == with_extension_of(file_path@, "mp4"@)
                &&& crate::upload_queue::texts_of(job.arguments@) == remux_arguments(
                    file_path@,
                    with_extension_of(file_path@, "mp4"@),
                )
            },
            None => !(extension_of(file_path@) is Some && same_ignoring_case(
                extension_of(file_path@)->0,
                "flv"@,
            )),
        },
{
    let extension = path_extension(file_path);
    let wanted = match &extension {
        Some(e) => remux_wanted(Some(e.as_str())),
        None => false,
    };
    if !wanted {
        return None;
    }
    proof {
        reveal_strlit("mp4");
    }
    let target = path_with_extension(file_path, "mp4");
    let arguments = build_remux_arguments(file_path, target.as_str());
    Some(RemuxJob { record_id, source: String::from_str(file_path), target, arguments })
}

/// The name that a stem gives to a part: the stem, trimmed, or `P` where
/// there is no stem or the stem is blank.
pub open spec fn part_name_of_stem(stem: Option<Seq<char>>) -> Seq<char> {
    if stem is Some && !crate::text::is_blank(stem->0) {
        trimmed(stem->0)
    } else {
        "P"@
    }
}

/// The name that a file gives to the part that is made of it: its stem,
/// trimmed, or `P`.
pub fn default_part_name_from_path(path: &str) -> (r: String)
    ensures
        r@ == part_name_of_stem(file_stem_of(path@)),
{
    let stem = path_file_stem(path);
    match &stem {
        Some(s) => crate::edit::part_name_from_stem(Some(s.as_str())),
        None => crate::edit::part_name_from_stem(None),
    }
}

/// A folder or file of a task that is removed when the task is cleaned up.
#[derive(Debug)]
pub struct CleanupTarget {
    pub label: String,
    pub path: String,
}

/// The labels of the folders with what was derived from the sources of a
/// task: the clips, the merged file and the segments.
pub open spec fn derived_labels() -> Seq<Seq<char>> {
    seq!["cut"@, "merge"@, "output"@]
}

/// The folders with what was derived from the sources of a task, in the
/// order in which they are removed. Each lies below the task's folder under
/// its label.
pub fn cleanup_submission_derived_files(base_dir: &str) -> (r: Vec<CleanupTarget>)
    ensures
        r@.len() == 3,
        forall|i: int|
            0 <= i < 3 ==> {
                &&& (#[trigger] r@[i]).label@ == derived_labels()[i]
                &&& r@[i].path@ == joined_path(base_dir@, derived_labels()[i])
            },
{
    let mut targets: Vec<CleanupTarget> = Vec::new();
    targets.push(CleanupTarget { label: String::from_str("cut"), path: path_join(base_dir, "cut") });
    targets.push(
        CleanupTarget { label: String::from_str("merge"), path: path_join(base_dir, "merge") },
    );
    targets.push(
        CleanupTarget { label: String::from_str("output"), path: path_join(base_dir, "output") },
    );
    targets
}

/// All that is removed when a task is deleted: the derived folders, then the
/// task's folder itself.
pub fn cleanup_submission_files(base_dir: &str) -> (r: Vec<CleanupTarget>)
    ensures
        r@.len() == 4,
        forall|i: int|
            0 <= i < 3 ==> {
                &&& (#[trigger] r@[i]).label@ == derived_labels()[i]
                &&& r@[i].path@ == joined_path(base_dir@, derived_labels()[i])
            },
        r@[3].label@ == "base"@,
        r@[3].path@ == base_dir@,
{
    let mut targets = cleanup_submission_derived_files(base_dir);
    targets.push(CleanupTarget { label: String::from_str("base"), path: String::from_str(base_dir) });
    targets
}

/// What is done with a path that is to be removed.
#[derive(Clone, Copy, Debug, PartialEq, Eq, Structural)]
pub enum RemoveAction {
    /// The path does not exist: nothing is done.
    Nothing,
    /// The folder is removed with all that it holds.
    RemoveDir,
    /// The file is removed.
    RemoveFile,
}

/// Decides what is done with a path that is to be removed, given whether it
/// exists, and whether it is a folder.
pub fn remove_path_if_exists(is_dir: Option<bool>) -> (r: RemoveAction)
    ensures
        r == match is_dir {
            None => RemoveAction::Nothing,
            Some(true) => RemoveAction::RemoveDir,
            Some(false) => RemoveAction::RemoveFile,
        },
{
    match is_dir {
        None => RemoveAction::Nothing,
        Some(true) => RemoveAction::RemoveDir,
        Some(false) => RemoveAction::RemoveFile,
    }
}

/// The folder below which the folders of the tasks lie: the configured
/// download folder, trimmed, or the default one where none is configured.
pub fn submission_root(configured: &str, default_dir: &str) -> (r: String)
    ensures
        r@ == if crate::text::is_blank(configured@) {
            default_dir@
        } else {
            trimmed(configured@)
        },
{
    if crate::text::blank(configured) {
        String::from_str(default_dir)
    } else {
        crate::text::trim(configured)
    }
}

/// The folder of a task: the task's id below the root folder, which is the
/// configured download folder, trimmed, or the default one where none is
/// configured.
pub fn resolve_submission_base_dir(configured: &str, default_dir: &str, task_id: &str) -> (r:
    String)
    ensures
        r@ == joined_path(
            if crate::text::is_blank(configured@) {
                default_dir@
            } else {
                trimmed(configured@)
            },
            task_id@,
        ),
{
    let root = submission_root(configured, default_dir);
    path_join(root.as_str(), task_id)
}

/// The recordings beside which the chat is logged, in the order in which
/// they are tried.
pub open spec fn sidecar_files(current_file: Option<Seq<char>>, fallback: Seq<char>) -> Seq<
    Seq<char>,
> {
    let first: Seq<Seq<char>> = match current_file {
        Some(c) => if crate::text::is_blank(c) {
            Seq::empty()
        } else {
            seq![c]
        },
        None => Seq::empty(),
    };
    if crate::text::is_blank(fallback) || (first.len() == 1 && first[0] == fallback) {
        first
    } else {
        first.push(fallback)
    }
}

/// The recordings beside which the chat is logged, in the order in which
/// they are tried: the file that the recorder writes now, then the file
/// that it began with; blank ones are left out, and the second where it is
/// the first.
pub fn sidecar_candidates(current_file: Option<&str>, fallback: &str) -> (r: Vec<String>)
    ensures
        crate::upload_queue::texts_of(r@) == sidecar_files(
            match current_file {
                Some(c) => Some(c@),
                None => None,
            },
            fallback@,
        ),
{
    let mut list: Vec<String> = Vec::new();
    let mut same = false;
    if let Some(current) = current_file {
        if !crate::text::blank(current) {
            same = crate::text::str_eq(current, fallback);
            list.push(String::from_str(current));
        }
    }
    if !crate::text::blank(fallback) && !same {
        list.push(String::from_str(fallback));
    }
    assert(crate::upload_queue::texts_of(list@) =~= sidecar_files(
        match current_file {
            Some(c) => Some(c@),
            None => None,
        },
        fallback@,
    ));
    list
}

/// The extension of the file that a cover is saved to, by the content type
/// of the answer that carries it.
pub fn cover_extension(content_type: Option<&str>) -> (r: &'static str)
    ensures
        r@ == match content_type {
            Some(t) => if crate::text::contains(t@, "png"@) {
                "png"@
            } else if crate::text::contains(t@, "webp"@) {
                "webp"@
            } else {
                "jpg"@
            },
            None => "jpg"@,
        },
{
    match content_type {
        Some(t) => if crate::text::str_contains(t, "png") {
            "png"
        } else if crate::text::str_contains(t, "webp") {
            "webp"
        } else {
            "jpg"
        },
        None => "jpg",
    }
}

} // verus!
