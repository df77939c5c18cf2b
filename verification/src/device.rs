//! Device discovery: the table of supported cameras keyed by USB vendor id,
//! the matching of attached devices against it, and the filter that picks
//! candidate files by extension. Enumerating USB devices and walking the
//! mounted volume are the caller's concern.

use vstd::prelude::*;
use vstd::string::*;
use crate::strutil::spec_ascii_upper;
use crate::strutil::spec_is_space;
use crate::strutil::spec_matches_at;
use crate::strutil::spec_str_contains;
use crate::strutil::str_contains;
use crate::strutil::str_starts_with;
use crate::upload::FileInfo;
use crate::upload::FileInfoV;
use crate::upload::spec_files_view;

verus! {

/// Camera vendors the engine supports.
#[derive(Clone, Copy, Debug, PartialEq, Eq, Structural)]
pub enum VendorType {
    Insta,
    Theta,
}

impl VendorType {
    /// The vendor's display name.
    pub open spec fn spec_name(self) -> Seq<char> {
        match self {
            VendorType::Insta => "Insta"@,
            VendorType::Theta => "Theta"@,
        }
    }

    /// The vendor's display name.
    pub fn name(&self) -> (r: &'static str)
        ensures
            r@ == self.spec_name(),
    {
        match self {
            VendorType::Insta => "Insta",
            VendorType::Theta => "Theta",
        }
    }
}

/// Camera models the engine supports.
#[derive(Clone, Copy, Debug, PartialEq, Eq, Structural)]
pub enum DeviceType {
    Insta360OneX2,
    ThetaZ1,
}

impl DeviceType {
    /// The model's display name.
    pub open spec fn spec_name(self) -> Seq<char> {
        match self {
            DeviceType::Insta360OneX2 => "Insta360 One X2"@,
            DeviceType::ThetaZ1 => "RICOH THETA Z1"@,
        }
    }

    /// The model's display name.
    pub fn name(&self) -> (r: &'static str)
        ensures
            r@ == self.spec_name(),
    {
        match self {
            DeviceType::Insta360OneX2 => "Insta360 One X2",
            DeviceType::ThetaZ1 => "RICOH THETA Z1",
        }
    }
}

/// A supported camera: its vendor, the USB vendor id it is recognised by,
/// and the model.
#[derive(Clone, Copy, Debug, PartialEq, Eq, Structural)]
pub struct CameraInfo {
    pub vendor: VendorType,
    pub vendor_id: u16,
    pub device: DeviceType,
}

/// The static vendor/device table, keyed by USB vendor id. Unknown vendor
/// ids map to nothing; no lookup panics.
pub open spec fn spec_camera_for_vendor(vendor_id: u16) -> Option<CameraInfo> {
    if vendor_id == 1802 {
        Some(
            CameraInfo {
                vendor: VendorType::Insta,
                vendor_id: 1802,
                device: DeviceType::Insta360OneX2,
            },
        )
    } else if vendor_id == 1482 {
        Some(
            CameraInfo { vendor: VendorType::Theta, vendor_id: 1482, device: DeviceType::ThetaZ1 },
        )
    } else {
        None
    }
}

/// Look a USB vendor id up in the supported-camera table.
pub fn camera_for_vendor(vendor_id: u16) -> (r: Option<CameraInfo>)
    ensures
        r == spec_camera_for_vendor(vendor_id),
{
    if vendor_id == 1802 {
        Some(
            CameraInfo {
                vendor: VendorType::Insta,
                vendor_id: 1802,
                device: DeviceType::Insta360OneX2,
            },
        )
    } else if vendor_id == 1482 {
        Some(
            CameraInfo { vendor: VendorType::Theta, vendor_id: 1482, device: DeviceType::ThetaZ1 },
        )
    } else {
        None
    }
}

/// Match the attached USB devices (by vendor id, in enumeration order)
/// against the supported-camera table: the first supported device wins, and
/// no supported device is a normal empty outcome, not an error.
pub fn match_camera(vendor_ids: &Vec<u16>) -> (r: Option<CameraInfo>)
    ensures
        match r {
            None => forall|i: int|
                0 <= i < vendor_ids@.len() ==> spec_camera_for_vendor(#[trigger] vendor_ids@[i])
                    is None,
            Some(c) => exists|i: int|
                {
                    &&& 0 <= i < vendor_ids@.len()
                    &&& spec_camera_for_vendor(#[trigger] vendor_ids@[i]) == Some(c)
                    &&& forall|j: int|
                        0 <= j < i ==> spec_camera_for_vendor(#[trigger] vendor_ids@[j]) is None
                },
        },
{
    let mut i: usize = 0;
    while i < vendor_ids.len()
        invariant
            i <= vendor_ids.len(),
            forall|j: int|
                0 <= j < i ==> spec_camera_for_vendor(#[trigger] vendor_ids@[j]) is None,
        decreases vendor_ids.len() - i,
    {
        let found = camera_for_vendor(vendor_ids[i]);
        if let Some(c) = found {
            assert(spec_camera_for_vendor(vendor_ids@[i as int]) == Some(c));
            return Some(c);
        }
        i += 1;
    }
    None
}

/// A discovered camera together with what file access produced: the mount
/// point or transport label, the files found under it, and a description of
/// why files are inaccessible when they are.
pub struct CameraWithFiles {
    pub info: CameraInfo,
    pub mount_point: Option<String>,
    pub files: Vec<String>,
    pub access_error: Option<String>,
}

/// `path` ends in `.<ext>` (case-insensitively on ASCII letters), with the
/// dot neither the first character of the final path component nor absent.
pub open spec fn spec_matches_extension(path: Seq<char>, ext: Seq<char>) -> bool {
    let n = path.len();
    let m = ext.len();
    &&& n >= m + 2
    &&& path[n - m - 1] == '.'
    &&& path[n - m - 2] != '/'
    &&& forall|k: int|
        0 <= k < m ==> spec_ascii_upper(#[trigger] path[n - m + k]) == spec_ascii_upper(ext[k])
}

/// Does the path name a file with the given extension, compared
/// case-insensitively on ASCII letters?
pub fn matches_extension(path: &str, ext: &str) -> (r: bool)
    ensures
        r == spec_matches_extension(path@, ext@),
{
    let n = path.unicode_len();
    let m = ext.unicode_len();
    if n < 2 || n - 2 < m {
        return false;
    }
    if path.get_char(n - m - 1) != '.' {
        return false;
    }
    if path.get_char(n - m - 2) == '/' {
        return false;
    }
    let mut k: usize = 0;
    while k < m
        invariant
            n == path@.len(),
            m == ext@.len(),
            n >= m + 2,
            k <= m,
            forall|j: int|
                0 <= j < k ==> spec_ascii_upper(#[trigger] path@[n - m + j]) == spec_ascii_upper(
                    ext@[j],
                ),
        decreases m - k,
    {
        let pc = crate::strutil::ascii_upper(path.get_char(n - m + k));
        let ec = crate::strutil::ascii_upper(ext.get_char(k));
        if pc != ec {
            return false;
        }
        k += 1;
    }
    true
}

/// The files whose filename carries the extension, in order.
pub open spec fn spec_extension_filtered(files: Seq<FileInfo>, ext: Seq<char>) -> Seq<FileInfoV>
    decreases files.len(),
{
    if files.len() == 0 {
        Seq::empty()
    } else {
        let init = spec_extension_filtered(files.drop_last(), ext);
        if spec_matches_extension(files.last()@.filename, ext) {
            init.push(files.last()@)
        } else {
            init
        }
    }
}

/// Keep the candidate files whose filename carries the extension
/// (case-insensitively), preserving their order.
pub fn filter_by_extension(files: &Vec<FileInfo>, ext: &str) -> (r: Vec<FileInfo>)
    ensures
        spec_files_view(r@) == spec_extension_filtered(files@, ext@),
{
    let mut out: Vec<FileInfo> = Vec::new();
    let mut i: usize = 0;
    while i < files.len()
        invariant
            i <= files.len(),
            spec_files_view(out@) == spec_extension_filtered(files@.take(i as int), ext@),
        decreases files.len() - i,
    {
        let ghost prefix = files@.take(i as int);
        let ghost pre_out = out@;
        assert(files@.take(i as int + 1).drop_last() =~= prefix);
        assert(files@.take(i as int + 1).last() == files@[i as int]);
        let f = &files[i];
        if matches_extension(f.filename.as_str(), ext) {
            out.push(f.duplicate());
            proof {
                assert(spec_files_view(out@) =~= spec_files_view(pre_out).push(f@));
                assert(spec_files_view(out@) =~= spec_extension_filtered(
                    files@.take(i as int + 1),
                    ext@,
                ));
            }
        }
        i += 1;
    }
    proof {
        assert(files@.take(files@.len() as int) =~= files@);
    }
    out
}

// --- parsing the PTP tool's file listing ---

/// The first position of `c` in `v` at or after `from`; `v.len()` when `c`
/// does not occur there.
pub open spec fn spec_index_from(v: Seq<char>, c: char, from: int) -> int
    decreases v.len() - from,
{
    if from < 0 || from >= v.len() {
        v.len() as int
    } else if v[from] == c {
        from
    } else {
        spec_index_from(v, c, from + 1)
    }
}

/// The first position at or after `from` whose character is not whitespace;
/// `v.len()` when only whitespace follows.
pub open spec fn spec_skip_spaces(v: Seq<char>, from: int) -> int
    decreases v.len() - from,
{
    if from < 0 || from >= v.len() {
        v.len() as int
    } else if spec_is_space(v[from]) {
        spec_skip_spaces(v, from + 1)
    } else {
        from
    }
}

/// The first whitespace position at or after `from`; `v.len()` when the word
/// runs to the end.
pub open spec fn spec_skip_word(v: Seq<char>, from: int) -> int
    decreases v.len() - from,
{
    if from < 0 || from >= v.len() {
        v.len() as int
    } else if !spec_is_space(v[from]) {
        spec_skip_word(v, from + 1)
    } else {
        from
    }
}

/// Bounds and meaning of [`spec_index_from`].
pub proof fn lemma_index_from(v: Seq<char>, c: char, from: int)
    requires
        0 <= from <= v.len(),
    ensures
        from <= spec_index_from(v, c, from) <= v.len(),
        spec_index_from(v, c, from) < v.len() ==> v[spec_index_from(v, c, from)] == c,
        forall|k: int| from <= k < spec_index_from(v, c, from) ==> v[k] != c,
    decreases v.len() - from,
{
    if from < v.len() && v[from] != c {
        lemma_index_from(v, c, from + 1);
    }
}

/// Bounds and meaning of [`spec_skip_spaces`].
pub proof fn lemma_skip_spaces(v: Seq<char>, from: int)
    requires
        0 <= from <= v.len(),
    ensures
        from <= spec_skip_spaces(v, from) <= v.len(),
        spec_skip_spaces(v, from) < v.len() ==> !spec_is_space(v[spec_skip_spaces(v, from)]),
        forall|k: int| from <= k < spec_skip_spaces(v, from) ==> spec_is_space(#[trigger] v[k]),
    decreases v.len() - from,
{
    if from < v.len() && spec_is_space(v[from]) {
        lemma_skip_spaces(v, from + 1);
    }
}

/// Bounds and meaning of [`spec_skip_word`].
pub proof fn lemma_skip_word(v: Seq<char>, from: int)
    requires
        0 <= from <= v.len(),
    ensures
        from <= spec_skip_word(v, from) <= v.len(),
        spec_skip_word(v, from) < v.len() ==> spec_is_space(v[spec_skip_word(v, from)]),
        forall|k: int| from <= k < spec_skip_word(v, from) ==> !spec_is_space(#[trigger] v[k]),
    decreases v.len() - from,
{
    if from < v.len() && !spec_is_space(v[from]) {
        lemma_skip_word(v, from + 1);
    }
}

/// The text between the first pair of single quotes in `v`, if both quotes
/// are there.
pub open spec fn spec_quoted(v: Seq<char>) -> Option<Seq<char>> {
    let q1 = spec_index_from(v, '\'', 0);
    if q1 >= v.len() {
        None
    } else {
        let q2 = spec_index_from(v, '\'', q1 + 1);
        if q2 >= v.len() {
            None
        } else {
            Some(v.subrange(q1 + 1, q2))
        }
    }
}

/// Where the second whitespace-separated word of `v` starts; `v.len()` when
/// `v` has no second word.
pub open spec fn spec_second_word_start(v: Seq<char>) -> int {
    spec_skip_spaces(v, spec_skip_word(v, spec_skip_spaces(v, 0)))
}

/// `v` has at least two whitespace-separated words.
pub open spec fn spec_has_second_word(v: Seq<char>) -> bool {
    spec_second_word_start(v) < v.len()
}

/// The second whitespace-separated word of `v`.
pub open spec fn spec_second_word(v: Seq<char>) -> Seq<char> {
    v.subrange(spec_second_word_start(v), spec_skip_word(v, spec_second_word_start(v)))
}

/// A folder announcement in the listing: the line starts with `There` and
/// speaks of files in a folder.
pub open spec fn spec_is_folder_line(v: Seq<char>) -> bool {
    spec_matches_at(v, "There"@, 0) && spec_str_contains(v, "files in folder"@)
}

/// A file entry in the listing: the line starts with `#`.
pub open spec fn spec_is_file_line(v: Seq<char>) -> bool {
    spec_matches_at(v, "#"@, 0)
}

/// The lines of `v` from position `from` on, split at newline characters;
/// the text after the last newline is the final line.
pub open spec fn spec_lines_from(v: Seq<char>, from: int) -> Seq<Seq<char>>
    decreases v.len() - from,
{
    if from < 0 || from > v.len() {
        Seq::empty()
    } else {
        let i = spec_index_from(v, '\n', from);
        if i >= v.len() {
            seq![v.subrange(from, v.len() as int)]
        } else if i < from {
            Seq::empty()
        } else {
            seq![v.subrange(from, i)] + spec_lines_from(v, i + 1)
        }
    }
}

/// The file paths a listing names, walked line by line with the current
/// folder carried along: a folder announcement switches the folder (when its
/// quotes parse), a file entry contributes `folder/name` (or bare `name`
/// while no folder is current), everything else is ignored.
pub open spec fn spec_parse_listing(lines: Seq<Seq<char>>, folder: Seq<char>) -> Seq<Seq<char>>
    decreases lines.len(),
{
    if lines.len() == 0 {
        Seq::empty()
    } else {
        let line = lines[0];
        let rest = lines.drop_first();
        if spec_is_folder_line(line) {
            let next_folder = match spec_quoted(line) {
                Some(f) => f,
                None => folder,
            };
            spec_parse_listing(rest, next_folder)
        } else if spec_is_file_line(line) && spec_has_second_word(line) {
            let name = spec_second_word(line);
            let path = if folder.len() == 0 {
                name
            } else {
                folder + "/"@ + name
            };
            seq![path] + spec_parse_listing(rest, folder)
        } else {
            spec_parse_listing(rest, folder)
        }
    }
}

/// The character views of a sequence of paths.
pub open spec fn spec_paths_view(s: Seq<String>) -> Seq<Seq<char>> {
    s.map_values(|p: String| p@)
}

/// The first position of `c` in `s` at or after `from`, or the length of
/// `s` when `c` does not occur there.
fn find_char_from(s: &str, c: char, from: usize) -> (r: usize)
    requires
        from <= s@.len(),
    ensures
        r == spec_index_from(s@, c, from as int),
        from <= r <= s@.len(),
        r < s@.len() ==> s@[r as int] == c,
{
    let n = s.unicode_len();
    let mut cur = from;
    while cur < n && s.get_char(cur) != c
        invariant
            from <= cur <= n,
            n == s@.len(),
            forall|k: int| from <= k < cur ==> s@[k] != c,
        decreases n - cur,
    {
        cur += 1;
    }
    proof {
        lemma_index_from(s@, c, from as int);
        let idx = spec_index_from(s@, c, from as int);
        if cur < n {
            if idx < cur {
                assert(s@[idx] == c);
            }
            if idx > cur {
                assert(s@[cur as int] != c);
            }
        } else {
            if idx < n {
                assert(s@[idx] == c);
            }
        }
    }
    cur
}

/// The first position at or after `from` whose character is not whitespace.
fn skip_spaces_from(s: &str, from: usize) -> (r: usize)
    requires
        from <= s@.len(),
    ensures
        r == spec_skip_spaces(s@, from as int),
        from <= r <= s@.len(),
{
    let n = s.unicode_len();
    let mut cur = from;
    while cur < n && crate::strutil::is_space(s.get_char(cur))
        invariant
            from <= cur <= n,
            n == s@.len(),
            forall|k: int| from <= k < cur ==> spec_is_space(#[trigger] s@[k]),
        decreases n - cur,
    {
        cur += 1;
    }
    proof {
        lemma_skip_spaces(s@, from as int);
        let idx = spec_skip_spaces(s@, from as int);
        if cur < n {
            if idx < cur {
                assert(!spec_is_space(s@[idx]));
            }
            if idx > cur {
                assert(spec_is_space(s@[cur as int]));
            }
        } else {
            if idx < n {
                assert(!spec_is_space(s@[idx]));
            }
        }
    }
    cur
}

/// The first whitespace position at or after `from`.
fn skip_word_from(s: &str, from: usize) -> (r: usize)
    requires
        from <= s@.len(),
    ensures
        r == spec_skip_word(s@, from as int),
        from <= r <= s@.len(),
{
    let n = s.unicode_len();
    let mut cur = from;
    while cur < n && !crate::strutil::is_space(s.get_char(cur))
        invariant
            from <= cur <= n,
            n == s@.len(),
            forall|k: int| from <= k < cur ==> !spec_is_space(#[trigger] s@[k]),
        decreases n - cur,
    {
        cur += 1;
    }
    proof {
        lemma_skip_word(s@, from as int);
        let idx = spec_skip_word(s@, from as int);
        if cur < n {
            if idx < cur {
                assert(spec_is_space(s@[idx]));
            }
            if idx > cur {
                assert(!spec_is_space(s@[cur as int]));
            }
        } else {
            if idx < n {
                assert(spec_is_space(s@[idx]));
            }
        }
    }
    cur
}

/// The text between the first pair of single quotes of `line`, if any.
fn extract_quoted(line: &str) -> (r: Option<String>)
    ensures
        match r {
            Some(f) => spec_quoted(line@) == Some(f@),
            None => spec_quoted(line@) is None,
        },
{
    let n = line.unicode_len();
    let q1 = find_char_from(line, '\'', 0);
    if q1 >= n {
        return None;
    }
    let q2 = find_char_from(line, '\'', q1 + 1);
    if q2 >= n {
        return None;
    }
    Some(line.substring_char(q1 + 1, q2).to_owned())
}

/// The second whitespace-separated word of `line`, if the line has one.
fn second_word(line: &str) -> (r: Option<String>)
    ensures
        match r {
            Some(w) => spec_has_second_word(line@) && w@ == spec_second_word(line@),
            None => !spec_has_second_word(line@),
        },
{
    let n = line.unicode_len();
    let w1 = skip_spaces_from(line, 0);
    let e1 = skip_word_from(line, w1);
    let s2 = skip_spaces_from(line, e1);
    if s2 >= n {
        return None;
    }
    let e2 = skip_word_from(line, s2);
    Some(line.substring_char(s2, e2).to_owned())
}

/// Parse the PTP tool's file listing: folder announcements set the current
/// folder, numbered file entries contribute their name under it.
pub fn parse_gphoto2_file_list(output: &str) -> (r: Vec<String>)
    ensures
        spec_paths_view(r@) == spec_parse_listing(spec_lines_from(output@, 0), Seq::empty()),
{
    let n = output.unicode_len();
    let mut pos: usize = 0;
    let mut folder: String = String::new();
    let mut out: Vec<String> = Vec::new();
    let mut done = false;
    while !done
        invariant
            pos <= n,
            n == output@.len(),
            !done ==> spec_parse_listing(spec_lines_from(output@, 0), Seq::empty())
                == spec_paths_view(out@) + spec_parse_listing(
                spec_lines_from(output@, pos as int),
                folder@,
            ),
            done ==> spec_parse_listing(spec_lines_from(output@, 0), Seq::empty())
                == spec_paths_view(out@),
        decreases n - pos + (if done { 0int } else { 1int }),
    {
        let ghost pre_out = out@;
        let ghost pre_folder = folder@;
        let i = find_char_from(output, '\n', pos);
        let line = output.substring_char(pos, i);
        assert(line@ == output@.subrange(pos as int, i as int));
        let ghost cur_lines = spec_lines_from(output@, pos as int);
        proof {
            assert(cur_lines[0] == line@);
            if i < n {
                assert(cur_lines == seq![line@] + spec_lines_from(output@, i + 1));
                assert(cur_lines.drop_first() =~= spec_lines_from(output@, i + 1));
            } else {
                assert(cur_lines =~= seq![line@]);
                assert(cur_lines.drop_first() =~= Seq::<Seq<char>>::empty());
            }
        }
        if str_starts_with(line, "There") && str_contains(line, "files in folder") {
            match extract_quoted(line) {
                Some(f) => {
                    folder = f;
                },
                None => {},
            }
            assert(spec_paths_view(out@) == spec_paths_view(pre_out));
        } else if str_starts_with(line, "#") {
            match second_word(line) {
                Some(name) => {
                    let path = if folder.unicode_len() == 0 {
                        name
                    } else {
                        let with_sep = folder.clone().concat("/");
                        with_sep.concat(name.as_str())
                    };
                    assert(path@ == (if pre_folder.len() == 0 {
                        spec_second_word(line@)
                    } else {
                        pre_folder + "/"@ + spec_second_word(line@)
                    }));
                    out.push(path);
                    proof {
                        assert(spec_paths_view(out@) =~= spec_paths_view(pre_out).push(
                            out@.last()@,
                        ));
                    }
                },
                None => {},
            }
        }
        proof {
            let rest = if i < n {
                spec_lines_from(output@, i + 1)
            } else {
                Seq::<Seq<char>>::empty()
            };
            if spec_is_folder_line(line@) {
                assert(spec_parse_listing(cur_lines, pre_folder) == spec_parse_listing(
                    rest,
                    folder@,
                ));
            } else if spec_is_file_line(line@) && spec_has_second_word(line@) {
                assert(spec_parse_listing(cur_lines, pre_folder) =~= seq![
                    out@.last()@,
                ] + spec_parse_listing(rest, folder@));
                assert(spec_paths_view(pre_out) + spec_parse_listing(cur_lines, pre_folder)
                    =~= spec_paths_view(out@) + spec_parse_listing(rest, folder@));
            } else {
                assert(spec_parse_listing(cur_lines, pre_folder) == spec_parse_listing(
                    rest,
                    folder@,
                ));
            }
        }
        if i >= n {
            done = true;
            proof {
                assert(spec_parse_listing(Seq::<Seq<char>>::empty(), folder@)
                    =~= Seq::<Seq<char>>::empty());
                assert(spec_paths_view(out@) + Seq::<Seq<char>>::empty() =~= spec_paths_view(
                    out@,
                ));
            }
        } else {
            pos = i + 1;
        }
    }
    out
}

} // verus!
