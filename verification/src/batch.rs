//! Per-entry action outcomes and the transcoder invocation plan.
//!
//! Each planned entry is attempted exactly once: a copy or a re-encode.
//! The attempt's outcome is recorded on the entry (success flag and
//! result length); a failure never aborts the batch. The transcoder is
//! invoked with `-i <source> -o <destination>` followed by the configured
//! option string split into independent whitespace-separated arguments.

use vstd::prelude::*;
use crate::entry::FileEntry;

verus! {

/// ASCII whitespace, as the option string is split on it.
pub open spec fn is_ascii_ws(c: char) -> bool {
    c == ' ' || c == '\t' || c == '\n' || c == '\r' || c == '\u{c}'
}

/// The maximal runs of non-whitespace characters in `s`, in order.
pub open spec fn split_ws(s: Seq<char>) -> Seq<Seq<char>>
    decreases s.len(),
{
    if s.len() == 0 {
        Seq::empty()
    } else if is_ascii_ws(s[0]) {
        split_ws(s.subrange(1, s.len() as int))
    } else if s.len() == 1 {
        seq![s]
    } else {
        let rest = split_ws(s.subrange(1, s.len() as int));
        if !is_ascii_ws(s[1]) {
            seq![seq![s[0]] + rest[0]] + rest.subrange(1, rest.len() as int)
        } else {
            seq![seq![s[0]]] + rest
        }
    }
}

/// A token of non-whitespace characters reaching up to the next
/// whitespace (or the end) splits off the front.
proof fn lemma_split_ws_token(s: Seq<char>, k: int)
    requires
        1 <= k <= s.len(),
        forall|q: int| 0 <= q < k ==> !is_ascii_ws(s[q]),
        k == s.len() || is_ascii_ws(s[k]),
    ensures
        split_ws(s) == seq![s.subrange(0, k)] + split_ws(s.subrange(k, s.len() as int)),
    decreases k,
{
    let t = s.subrange(1, s.len() as int);
    if k == 1 {
        if s.len() == 1 {
            assert(s.subrange(0, 1) =~= s);
            assert(s.subrange(1, 1) =~= Seq::<char>::empty());
            assert(split_ws(s) =~= seq![s.subrange(0, 1)] + split_ws(
                s.subrange(1, s.len() as int),
            ));
        } else {
            assert(is_ascii_ws(s[1]));
            assert(seq![s[0]] =~= s.subrange(0, 1));
        }
    } else {
        assert(!is_ascii_ws(s[1]));
        assert(forall|q: int| 0 <= q < k - 1 ==> t[q] == s[q + 1] && !is_ascii_ws(t[q]));
        assert(k - 1 == t.len() || is_ascii_ws(t[k - 1]));
        lemma_split_ws_token(t, k - 1);
        let rest = split_ws(t);
        assert(rest == seq![t.subrange(0, k - 1)] + split_ws(t.subrange(k - 1, t.len() as int)));
        assert(rest[0] == t.subrange(0, k - 1));
        assert(rest.subrange(1, rest.len() as int) =~= split_ws(t.subrange(k - 1, t.len() as int)));
        assert(seq![s[0]] + t.subrange(0, k - 1) =~= s.subrange(0, k));
        assert(t.subrange(k - 1, t.len() as int) =~= s.subrange(k, s.len() as int));
        assert(split_ws(s) =~= seq![s.subrange(0, k)] + split_ws(s.subrange(k, s.len() as int)));
    }
}

/// Whitespace test matching `is_ascii_ws`.
fn is_ws_char(c: char) -> (b: bool)
    ensures
        b == is_ascii_ws(c),
{
    c == ' ' || c == '\t' || c == '\n' || c == '\r' || c == '\u{c}'
}

/// Splits the option string into its whitespace-separated tokens.
pub fn split_whitespace_args(options: &str) -> (r: Vec<String>)
    ensures
        r@.map_values(|t: String| t@) == split_ws(options@),
{
    let len = options.unicode_len();
    let mut result: Vec<String> = Vec::new();
    let mut i: usize = 0;
    proof {
        assert(options@.subrange(0, len as int) =~= options@);
        assert(result@.map_values(|t: String| t@) + split_ws(options@) =~= split_ws(options@));
    }
    while i < len
        invariant
            i <= len,
            len == options@.len(),
            split_ws(options@) == result@.map_values(|t: String| t@) + split_ws(
                options@.subrange(i as int, len as int),
            ),
        decreases len - i,
    {
        let ghost sub = options@.subrange(i as int, len as int);
        let c = options.get_char(i);
        if is_ws_char(c) {
            proof {
                assert(sub.subrange(1, sub.len() as int) =~= options@.subrange(
                    i + 1,
                    len as int,
                ));
            }
            i = i + 1;
        } else {
            let mut j: usize = i;
            while j < len && !is_ws_char(options.get_char(j))
                invariant
                    i <= j <= len,
                    len == options@.len(),
                    forall|q: int| i <= q < j ==> !is_ascii_ws(options@[q]),
                decreases len - j,
            {
                j = j + 1;
            }
            let token = options.substring_char(i, j);
            let ghost before = result@;
            result.push(String::from_str(token));
            proof {
                assert(forall|q: int|
                    0 <= q < j - i ==> sub[q] == options@[i + q] && !is_ascii_ws(sub[q]));
                assert(j == len || is_ascii_ws(sub[j - i]));
                lemma_split_ws_token(sub, j - i);
                assert(sub.subrange(0, j - i) =~= options@.subrange(i as int, j as int));
                assert(sub.subrange(j - i, sub.len() as int) =~= options@.subrange(
                    j as int,
                    len as int,
                ));
                assert(result@.map_values(|t: String| t@) =~= before.map_values(|t: String| t@)
                    + seq![token@]);
                assert(result@.map_values(|t: String| t@) + split_ws(
                    options@.subrange(j as int, len as int),
                ) =~= split_ws(options@));
            }
            i = j;
        }
    }
    proof {
        assert(options@.subrange(i as int, len as int) =~= Seq::<char>::empty());
        assert(result@.map_values(|t: String| t@) =~= split_ws(options@));
    }
    result
}

/// The argument list the transcoder is invoked with: `-i <source>`,
/// `-o <destination>`, then the configured options as independent
/// whitespace-separated tokens.
pub fn transcoder_args(source: &str, destination: &str, options: &str) -> (r: Vec<String>)
    ensures
        r@.map_values(|t: String| t@) == seq!["-i"@, source@, "-o"@, destination@] + split_ws(
            options@,
        ),
{
    let mut args: Vec<String> = Vec::new();
    args.push(String::from_str("-i"));
    args.push(String::from_str(source));
    args.push(String::from_str("-o"));
    args.push(String::from_str(destination));
    let ghost head = args@.map_values(|t: String| t@);
    let mut tokens = split_whitespace_args(options);
    let ghost toks = tokens@.map_values(|t: String| t@);
    args.append(&mut tokens);
    proof {
        assert(head =~= seq!["-i"@, source@, "-o"@, destination@]);
        assert(args@.map_values(|t: String| t@) =~= head + toks);
    }
    args
}

/// Records the outcome of a copy attempt on its entry: on success the
/// result length is the byte count the copy reported; on failure the
/// entry stays at length 0. The plan fields never change.
pub fn apply_copy_outcome(entry: &mut FileEntry, copied: Option<u64>)
    requires
        old(entry).wf(),
        old(entry).planned(),
    ensures
        final(entry).source_path == old(entry).source_path,
        final(entry).destination_path == old(entry).destination_path,
        final(entry).creation_date == old(entry).creation_date,
        final(entry).creation_date_source == old(entry).creation_date_source,
        final(entry).len == old(entry).len,
        final(entry).reencode == old(entry).reencode,
        match copied {
            Some(n) => final(entry).success && final(entry).len_after_action == n,
            None => !final(entry).success && final(entry).len_after_action == 0,
        },
        final(entry).wf(),
{
    match copied {
        Some(n) => {
            entry.success = true;
            entry.len_after_action = n;
        },
        None => {
            entry.success = false;
        },
    }
}

/// Records the outcome of a re-encode attempt on its entry: success
/// exactly when the transcoder was launched and exited successfully, and
/// only then does the destination's read-back size become the result
/// length. The plan fields never change.
pub fn apply_reencode_outcome(entry: &mut FileEntry, exit_success: bool, result_len: u64)
    requires
        old(entry).wf(),
        old(entry).planned(),
    ensures
        final(entry).source_path == old(entry).source_path,
        final(entry).destination_path == old(entry).destination_path,
        final(entry).creation_date == old(entry).creation_date,
        final(entry).creation_date_source == old(entry).creation_date_source,
        final(entry).len == old(entry).len,
        final(entry).reencode == old(entry).reencode,
        final(entry).success == exit_success,
        final(entry).len_after_action == (if exit_success {
            result_len as int
        } else {
            0
        }),
        final(entry).wf(),
{
    if exit_success {
        entry.success = true;
        entry.len_after_action = result_len;
    } else {
        entry.success = false;
    }
}

} // verus!
