//! Discovered files and their planned destinations.
//!
//! A destination path is a pure function of the creation timestamp, the
//! source file name, and the configured root and templates:
//! `root / rendered-subpath / (rendered-prefix + file-name)`, with the
//! extension swapped for the configured target one when the file is to
//! be re-encoded. Paths are plain strings with `/` separating segments.

use vstd::prelude::*;
use crate::resolve::DateSource;
use crate::template::{render_spec, render_template, valid_format};
use crate::timestamp::Timestamp;

verus! {

/// A configured pairing of a file extension with the action to take:
/// re-encode (true) or copy (false).
pub struct MaskEntry {
    pub extension: String,
    pub reencode: bool,
}

/// The configuration fields destination planning needs: the destination
/// root directory, the subdirectory and filename-prefix templates, and
/// the extension re-encoded outputs get.
pub struct DestinationConfig {
    pub destination_root: String,
    pub path_format: String,
    pub filename_prefix: String,
    pub new_file_extension: String,
}

/// One discovered file: its source, its resolved creation timestamp and
/// that timestamp's provenance, its planned destination and action, and
/// the outcome of the action once attempted.
pub struct FileEntry {
    pub source_path: String,
    pub destination_path: String,
    pub creation_date: Timestamp,
    pub creation_date_source: DateSource,
    pub len: u64,
    pub reencode: bool,
    pub success: bool,
    pub len_after_action: u64,
}

impl FileEntry {
    /// Well-formedness: the timestamp is a real date-time, and the
    /// result length is meaningful only on success (0 otherwise).
    pub open spec fn wf(self) -> bool {
        &&& self.creation_date.valid()
        &&& !self.success ==> self.len_after_action == 0
    }

    /// An entry whose action has not been attempted yet.
    pub open spec fn planned(self) -> bool {
        &&& !self.success
        &&& self.len_after_action == 0
    }
}

/// The index of the last occurrence of `c` in `s`, if any.
pub open spec fn last_index_of(s: Seq<char>, c: char) -> Option<int>
    decreases s.len(),
{
    if s.len() == 0 {
        None
    } else if s[s.len() - 1] == c {
        Some(s.len() - 1)
    } else {
        last_index_of(s.drop_last(), c)
    }
}

proof fn lemma_last_index_of_found(s: Seq<char>, c: char, i: int)
    requires
        0 <= i < s.len(),
        s[i] == c,
        forall|k: int| i < k < s.len() ==> s[k] != c,
    ensures
        last_index_of(s, c) == Some(i),
    decreases s.len(),
{
    if i == s.len() - 1 {
    } else {
        assert(s.drop_last()[i] == c);
        lemma_last_index_of_found(s.drop_last(), c, i);
    }
}

proof fn lemma_last_index_of_none(s: Seq<char>, c: char)
    requires
        forall|k: int| 0 <= k < s.len() ==> s[k] != c,
    ensures
        last_index_of(s, c) is None,
    decreases s.len(),
{
    if s.len() > 0 {
        lemma_last_index_of_none(s.drop_last(), c);
    }
}

/// The index of the last occurrence of `c`, found by a backward scan.
fn rfind_char(s: &str, c: char) -> (r: Option<usize>)
    ensures
        match r {
            Some(i) => i < s@.len() && last_index_of(s@, c) == Some(i as int),
            None => last_index_of(s@, c) is None,
        },
{
    let len = s.unicode_len();
    let mut i: usize = len;
    while i > 0
        invariant
            i <= len,
            len == s@.len(),
            forall|k: int| i <= k < len ==> s@[k] != c,
        decreases i,
    {
        i = i - 1;
        if s.get_char(i) == c {
            proof {
                lemma_last_index_of_found(s@, c, i as int);
            }
            return Some(i);
        }
    }
    proof {
        lemma_last_index_of_none(s@, c);
    }
    None
}

/// The file-name part of a path: everything after the last `/`, or the
/// whole path when it has none.
pub open spec fn spec_file_name_of(p: Seq<char>) -> Seq<char> {
    match last_index_of(p, '/') {
        Some(i) => p.subrange(i + 1, p.len() as int),
        None => p,
    }
}

/// Returns the file-name part of a path.
pub fn file_name_of<'a>(path: &'a str) -> (r: &'a str)
    ensures
        r@ == spec_file_name_of(path@),
{
    let len = path.unicode_len();
    match rfind_char(path, '/') {
        Some(i) => path.substring_char(i + 1, len),
        None => path,
    }
}

/// Where the extension starts being replaced: one past the last `/`.
pub open spec fn spec_file_name_start(p: Seq<char>) -> int {
    match last_index_of(p, '/') {
        Some(i) => i + 1,
        None => 0,
    }
}

/// The path with its extension replaced by `ext`: the file-name part is
/// cut at its last `.` (one after its first character, as a leading dot
/// is part of the name, not an extension), and `.` + `ext` is appended.
pub open spec fn spec_with_extension(p: Seq<char>, ext: Seq<char>) -> Seq<char> {
    let stem_end = match last_index_of(p, '.') {
        Some(j) => if j > spec_file_name_start(p) {
            j
        } else {
            p.len() as int
        },
        None => p.len() as int,
    };
    p.subrange(0, stem_end) + seq!['.'] + ext
}

/// Replaces the path's extension with `ext`, appending one when the file
/// name has none.
pub fn with_extension(path: &str, ext: &str) -> (r: String)
    ensures
        r@ == spec_with_extension(path@, ext@),
{
    let len = path.unicode_len();
    let start = match rfind_char(path, '/') {
        Some(i) => i + 1,
        None => 0,
    };
    let stem_end = match rfind_char(path, '.') {
        Some(j) => if j > start {
            j
        } else {
            len
        },
        None => len,
    };
    proof {
        reveal_strlit(".");
        assert(path@.subrange(0, len as int) =~= path@);
    }
    let mut out = String::from_str(path.substring_char(0, stem_end));
    out.append(".");
    out.append(ext);
    out
}

/// The destination path for a timestamp, file name, root, and templates:
/// `root / rendered-subpath / rendered-prefix + file-name`.
pub open spec fn spec_destination_path(
    ts: Timestamp,
    file_name: Seq<char>,
    root: Seq<char>,
    subpath_fmt: Seq<char>,
    prefix_fmt: Seq<char>,
) -> Seq<char> {
    root + seq!['/'] + render_spec(ts, subpath_fmt) + seq!['/'] + render_spec(ts, prefix_fmt)
        + file_name
}

/// Computes the destination path: `Some` with the exact composition for
/// valid templates, `None` when either template is invalid.
pub fn build_destination_path(
    ts: &Timestamp,
    file_name: &str,
    root: &str,
    subpath_fmt: &str,
    prefix_fmt: &str,
) -> (r: Option<String>)
    requires
        ts.valid(),
    ensures
        match r {
            Some(p) => {
                &&& valid_format(subpath_fmt@)
                &&& valid_format(prefix_fmt@)
                &&& p@ == spec_destination_path(*ts, file_name@, root@, subpath_fmt@, prefix_fmt@)
            },
            None => !valid_format(subpath_fmt@) || !valid_format(prefix_fmt@),
        },
{
    let subpath = match render_template(ts, subpath_fmt) {
        Some(s) => s,
        None => {
            return None;
        },
    };
    let prefix = match render_template(ts, prefix_fmt) {
        Some(s) => s,
        None => {
            return None;
        },
    };
    proof {
        reveal_strlit("/");
    }
    let mut out = String::from_str(root);
    out.append("/");
    out.append(subpath.as_str());
    out.append("/");
    out.append(prefix.as_str());
    out.append(file_name);
    Some(out)
}

/// The destination an entry is planned for: the composed path, with the
/// configured target extension when the mask says re-encode.
pub open spec fn spec_planned_destination(
    ts: Timestamp,
    file_name: Seq<char>,
    reencode: bool,
    cfg: DestinationConfig,
) -> Seq<char> {
    let base = spec_destination_path(
        ts,
        file_name,
        cfg.destination_root@,
        cfg.path_format@,
        cfg.filename_prefix@,
    );
    if reencode {
        spec_with_extension(base, cfg.new_file_extension@)
    } else {
        base
    }
}

/// The extension of a path: what follows the last `.` of its file-name
/// part, when that dot is not the file name's first character.
pub open spec fn spec_extension_of(p: Seq<char>) -> Option<Seq<char>> {
    match last_index_of(p, '.') {
        Some(j) => if j > spec_file_name_start(p) {
            Some(p.subrange(j + 1, p.len() as int))
        } else {
            None
        },
        None => None,
    }
}

proof fn lemma_last_index_of_props(s: Seq<char>, c: char)
    ensures
        match last_index_of(s, c) {
            Some(i) => 0 <= i < s.len() && s[i] == c && (forall|k: int|
                i < k < s.len() ==> s[k] != c),
            None => forall|k: int| 0 <= k < s.len() ==> s[k] != c,
        },
    decreases s.len(),
{
    if s.len() == 0 {
    } else if s[s.len() - 1] == c {
    } else {
        let t = s.drop_last();
        lemma_last_index_of_props(t, c);
        assert(forall|k: int| 0 <= k < t.len() ==> s[k] == t[k]);
        match last_index_of(t, c) {
            Some(i) => {
                assert(s[i] == t[i]);
                assert(forall|k: int| i < k < s.len() - 1 ==> s[k] == t[k] && t[k] != c);
            },
            None => {
                assert(forall|k: int| 0 <= k < s.len() - 1 ==> s[k] == t[k] && t[k] != c);
            },
        }
    }
}

/// Law: replacing the extension of a path with a nonempty file name
/// really leaves that extension on it, whatever extension (or none) the
/// path had, as long as the new extension holds no `.` and no `/`.
pub proof fn lemma_with_extension_sets_extension(p: Seq<char>, ext: Seq<char>)
    requires
        spec_file_name_of(p).len() > 0,
        forall|k: int| 0 <= k < ext.len() ==> ext[k] != '.',
        forall|k: int| 0 <= k < ext.len() ==> ext[k] != '/',
    ensures
        spec_extension_of(spec_with_extension(p, ext)) == Some(ext),
{
    lemma_last_index_of_props(p, '/');
    lemma_last_index_of_props(p, '.');
    let start = spec_file_name_start(p);
    assert(start < p.len());
    let stem_end = match last_index_of(p, '.') {
        Some(j) => if j > start {
            j
        } else {
            p.len() as int
        },
        None => p.len() as int,
    };
    assert(start < stem_end <= p.len());
    let q = spec_with_extension(p, ext);
    assert(q == p.subrange(0, stem_end) + seq!['.'] + ext);
    assert(q.len() == stem_end + 1 + ext.len());
    assert(q[stem_end] == '.');
    assert(forall|k: int| 0 <= k < stem_end ==> q[k] == p[k]);
    assert(forall|k: int| stem_end < k < q.len() ==> q[k] == ext[k - stem_end - 1]);
    assert(forall|k: int| stem_end < k < q.len() ==> q[k] != '.');
    lemma_last_index_of_found(q, '.', stem_end);
    // every '/' of p sits before the file name, hence before the stem's end
    assert(forall|k: int| start <= k < p.len() ==> p[k] != '/');
    match last_index_of(p, '/') {
        Some(v) => {
            assert(v == start - 1);
            assert(q[v] == '/');
            assert(forall|k: int| v < k < q.len() ==> q[k] != '/');
            lemma_last_index_of_found(q, '/', v);
            assert(spec_file_name_start(q) == start);
        },
        None => {
            assert(start == 0);
            assert(forall|k: int| 0 <= k < q.len() ==> q[k] != '/');
            lemma_last_index_of_none(q, '/');
            assert(spec_file_name_start(q) == 0);
        },
    }
    assert(last_index_of(q, '.') == Some(stem_end));
    assert(stem_end > spec_file_name_start(q));
    assert(q.subrange(stem_end + 1, q.len() as int) =~= ext);
}

/// Law: destination planning is deterministic: equal timestamps, file
/// names, action flags, and configured texts yield byte-identical
/// destination paths.
pub proof fn lemma_destination_deterministic(
    ts: Timestamp,
    file_name: Seq<char>,
    reencode: bool,
    cfg1: DestinationConfig,
    cfg2: DestinationConfig,
)
    requires
        cfg1.destination_root@ == cfg2.destination_root@,
        cfg1.path_format@ == cfg2.path_format@,
        cfg1.filename_prefix@ == cfg2.filename_prefix@,
        cfg1.new_file_extension@ == cfg2.new_file_extension@,
    ensures
        spec_planned_destination(ts, file_name, reencode, cfg1) == spec_planned_destination(
            ts,
            file_name,
            reencode,
            cfg2,
        ),
{
}

/// Law: a re-encode-flagged entry's planned destination always carries
/// the configured target extension, whatever extension the source had,
/// as long as the file name is nonempty and the configured extension
/// holds no `.` and no `/`.
pub proof fn lemma_reencode_destination_extension(
    ts: Timestamp,
    file_name: Seq<char>,
    cfg: DestinationConfig,
)
    requires
        file_name.len() > 0,
        file_name[file_name.len() - 1] != '/',
        forall|k: int|
            0 <= k < cfg.new_file_extension@.len() ==> cfg.new_file_extension@[k] != '.',
        forall|k: int|
            0 <= k < cfg.new_file_extension@.len() ==> cfg.new_file_extension@[k] != '/',
    ensures
        spec_extension_of(spec_planned_destination(ts, file_name, true, cfg)) == Some(
            cfg.new_file_extension@,
        ),
{
    let base = spec_destination_path(
        ts,
        file_name,
        cfg.destination_root@,
        cfg.path_format@,
        cfg.filename_prefix@,
    );
    assert(base.len() > 0);
    assert(base[base.len() - 1] == file_name[file_name.len() - 1]);
    lemma_last_index_of_props(base, '/');
    match last_index_of(base, '/') {
        Some(i) => {
            assert(i < base.len() - 1);
            assert(spec_file_name_of(base).len() > 0);
        },
        None => {
            assert(spec_file_name_of(base).len() > 0);
        },
    }
    lemma_with_extension_sets_extension(base, cfg.new_file_extension@);
}

/// Builds the entry for one discovered file: destination computed once,
/// action taken from the mask, outcome fields at their initial state.
/// `None` exactly when a configured template is invalid. The source path
/// must carry a file name (not end in a separator).
pub fn build_file_entry(
    source_path: &str,
    len: u64,
    mask: &MaskEntry,
    ts: Timestamp,
    source: DateSource,
    cfg: &DestinationConfig,
) -> (r: Option<FileEntry>)
    requires
        ts.valid(),
        spec_file_name_of(source_path@).len() > 0,
    ensures
        match r {
            Some(e) => {
                &&& valid_format(cfg.path_format@)
                &&& valid_format(cfg.filename_prefix@)
                &&& e.source_path@ == source_path@
                &&& e.destination_path@ == spec_planned_destination(
                    ts,
                    spec_file_name_of(source_path@),
                    mask.reencode,
                    *cfg,
                )
                &&& e.creation_date == ts
                &&& e.creation_date_source == source
                &&& e.len == len
                &&& e.reencode == mask.reencode
                &&& e.planned()
                &&& e.wf()
            },
            None => !valid_format(cfg.path_format@) || !valid_format(cfg.filename_prefix@),
        },
{
    let file_name = file_name_of(source_path);
    let base = match build_destination_path(
        &ts,
        file_name,
        cfg.destination_root.as_str(),
        cfg.path_format.as_str(),
        cfg.filename_prefix.as_str(),
    ) {
        Some(p) => p,
        None => {
            return None;
        },
    };
    let destination = if mask.reencode {
        with_extension(base.as_str(), cfg.new_file_extension.as_str())
    } else {
        base
    };
    Some(
        FileEntry {
            source_path: String::from_str(source_path),
            destination_path: destination,
            creation_date: ts,
            creation_date_source: source,
            len,
            reencode: mask.reencode,
            success: false,
            len_after_action: 0,
        },
    )
}

} // verus!
