//! The name of the file that a recording is written to: a template in which
//! the facts of the room and of the moment are filled in.

use vstd::prelude::*;
use crate::text::{chars_of, decimal, push_decimal, replace_all, replaced};
use crate::upload_queue::texts_of;

verus! {

/// The name that stands for a host whose nickname is not known.
pub const DEFAULT_HOST_NAME: &'static str = "主播";

/// The stem of a recording whose path gives none.
pub const DEFAULT_STEM: &'static str = "record";

/// The extension of a recording whose template gives none.
pub const DEFAULT_EXTENSION: &'static str = "flv";

/// What is filled into the template of a file name. The times are given as
/// text: `now` as date and time, `date` and `time` alone, `ms` as three
/// digits, `now_with_ms` as date, time and milliseconds.
#[derive(Debug)]
pub struct TemplateValues {
    pub room_id: String,
    pub uid: String,
    pub name: Option<String>,
    pub title: String,
    pub now: String,
    pub date: String,
    pub live_date: String,
    pub time: String,
    pub ms: String,
    pub now_with_ms: String,
}

/// The name of the host that is filled in.
pub open spec fn host_name(name: Option<String>) -> Seq<char> {
    match name {
        Some(n) => n@,
        None => DEFAULT_HOST_NAME@,
    }
}

/// The template with its placeholders filled in, one after the other in
/// this order: room id, user id, name, title, now, date, the day on which
/// the broadcast began (under two spellings), time, milliseconds, and the
/// formatted now. What was filled in for one placeholder is searched again
/// for the next.
pub open spec fn rendered(template: Seq<char>, v: TemplateValues) -> Seq<char> {
    let s1 = replaced(template, "{{ roomId }}"@, v.room_id@);
    let s2 = replaced(s1, "{{ uid }}"@, v.uid@);
    let s3 = replaced(s2, "{{ name }}"@, host_name(v.name));
    let s4 = replaced(s3, "{{ title }}"@, v.title@);
    let s5 = replaced(s4, "{{ now }}"@, v.now@);
    let s6 = replaced(s5, "{{ date }}"@, v.date@);
    let s7 = replaced(s6, "{{ liveDate }}"@, v.live_date@);
    let s8 = replaced(s7, "{{ live_date }}"@, v.live_date@);
    let s9 = replaced(s8, "{{ time }}"@, v.time@);
    let s10 = replaced(s9, "{{ ms }}"@, v.ms@);
    replaced(s10, "{{ \"now\" | format_date: \"yyyyMMdd-HHmmss-fff\" }}"@, v.now_with_ms@)
}

/// Fills in the template of a file name.
pub fn render_record_template(template: &str, values: &TemplateValues) -> (r: String)
    ensures
        r@ == rendered(template@, *values),
{
    let s1 = replace_all(template, "{{ roomId }}", values.room_id.as_str());
    let s2 = replace_all(s1.as_str(), "{{ uid }}", values.uid.as_str());
    let s3 = match &values.name {
        Some(n) => replace_all(s2.as_str(), "{{ name }}", n.as_str()),
        None => replace_all(s2.as_str(), "{{ name }}", DEFAULT_HOST_NAME),
    };
    let s4 = replace_all(s3.as_str(), "{{ title }}", values.title.as_str());
    let s5 = replace_all(s4.as_str(), "{{ now }}", values.now.as_str());
    let s6 = replace_all(s5.as_str(), "{{ date }}", values.date.as_str());
    let s7 = replace_all(s6.as_str(), "{{ liveDate }}", values.live_date.as_str());
    let s8 = replace_all(s7.as_str(), "{{ live_date }}", values.live_date.as_str());
    let s9 = replace_all(s8.as_str(), "{{ time }}", values.time.as_str());
    let s10 = replace_all(s9.as_str(), "{{ ms }}", values.ms.as_str());
    replace_all(
        s10.as_str(),
        "{{ \"now\" | format_date: \"yyyyMMdd-HHmmss-fff\" }}",
        values.now_with_ms.as_str(),
    )
}

/// The file name of segment `segment_index` of a recording: the stem, then
/// `_part` and the index, then the extension.
pub open spec fn part_name(stem: Seq<char>, segment_index: nat, extension: Seq<char>) -> Seq<char> {
    stem + "_part"@ + decimal(segment_index) + "."@ + extension
}

/// The file name of a later segment of a recording, given the stem and the
/// extension of the first; none for the first segment, which keeps its name.
pub fn part_file_name(stem: Option<&str>, segment_index: i64, extension: Option<&str>) -> (r:
    Option<String>)
    ensures
        match r {
            Some(name) => segment_index > 1 && name@ == part_name(
                match stem {
                    Some(s) => s@,
                    None => DEFAULT_STEM@,
                },
                segment_index as nat,
                match extension {
                    Some(e) => e@,
                    None => DEFAULT_EXTENSION@,
                },
            ),
            None => segment_index <= 1,
        },
{
    if segment_index <= 1 {
        return None;
    }
    let mut name = match stem {
        Some(s) => String::from_str(s),
        None => String::from_str(DEFAULT_STEM),
    };
    name.append("_part");
    push_decimal(&mut name, segment_index as u64);
    name.append(".");
    match extension {
        Some(e) => {
            name.append(e);
        },
        None => {
            name.append(DEFAULT_EXTENSION);
        },
    }
    Some(name)
}

/// Whether a character parts the names of a path: a slash of either kind.
pub open spec fn is_separator(c: char) -> bool {
    c == '/' || c == '\\'
}

/// The characters from `start` to `end` as one name, or nothing where
/// there are none.
pub open spec fn name_between(s: Seq<char>, start: int, end: int) -> Seq<Seq<char>> {
    if start < end {
        seq![s.subrange(start, end)]
    } else {
        Seq::empty()
    }
}

/// The names of a path that are found by scanning from `at`, with the
/// current name starting at `start`.
pub open spec fn names_from(s: Seq<char>, start: int, at: int) -> Seq<Seq<char>>
    decreases s.len() - at,
{
    if at >= s.len() {
        name_between(s, start, s.len() as int)
    } else if is_separator(s[at]) {
        name_between(s, start, at) + names_from(s, at + 1, at + 1)
    } else {
        names_from(s, start, at + 1)
    }
}

/// The names of a path: the runs of characters between slashes of either
/// kind, the empty ones left out.
pub open spec fn path_names(s: Seq<char>) -> Seq<Seq<char>> {
    names_from(s, 0, 0)
}

/// Takes a path apart into its names.
pub fn split_path_names(path: &str) -> (r: Vec<String>)
    ensures
        texts_of(r@) == path_names(path@),
        forall|i: int| 0 <= i < r@.len() ==> (#[trigger] r@[i])@.len() > 0,
{
    let chars = chars_of(path);
    let n = chars.len();
    let mut names: Vec<String> = Vec::new();
    let mut start: usize = 0;
    let mut at: usize = 0;
    assert(texts_of(names@) =~= Seq::<Seq<char>>::empty());
    while at < n
        invariant
            start <= at <= n,
            n == chars.len(),
            chars@ == path@,
            texts_of(names@) + names_from(path@, start as int, at as int) == path_names(path@),
            forall|i: int| 0 <= i < names@.len() ==> (#[trigger] names@[i])@.len() > 0,
        decreases n - at,
    {
        let c = chars[at];
        if c == '/' || c == '\\' {
            if start < at {
                let ghost before = names@;
                names.push(String::from_str(path.substring_char(start, at)));
                assert(texts_of(names@) =~= texts_of(before) + name_between(
                    path@,
                    start as int,
                    at as int,
                ));
            }
            start = at + 1;
        }
        at += 1;
    }
    if start < n {
        let ghost before = names@;
        names.push(String::from_str(path.substring_char(start, n)));
        assert(texts_of(names@) =~= texts_of(before) + name_between(
            path@,
            start as int,
            n as int,
        ));
    }
    assert(texts_of(names@) =~= path_names(path@));
    names
}

} // verus!
