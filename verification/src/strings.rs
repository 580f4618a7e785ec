//! Bounded-width display-name compression.
//!
//! `transform_filename` shortens a filename to a character budget while
//! keeping a short extension and the tail of the name readable;
//! `truncate_string` is the underlying prefix-ellipsis-suffix compressor.

use vstd::prelude::*;

verus! {

use vstd::string::StrSliceExecFns;
use vstd::string::StringExecFns;

/// Index of the last occurrence of `c` in `s`, if any.
pub open spec fn spec_last_index_of(s: Seq<char>, c: char) -> Option<int>
    decreases s.len(),
{
    if s.len() == 0 {
        None
    } else if s.last() == c {
        Some(s.len() - 1)
    } else {
        spec_last_index_of(s.drop_last(), c)
    }
}

pub proof fn lemma_last_index_of_props(s: Seq<char>, c: char)
    ensures
        match spec_last_index_of(s, c) {
            Some(j) => 0 <= j < s.len() && s[j] == c && (forall|k: int| j < k < s.len() ==> s[k] != c),
            None => forall|k: int| 0 <= k < s.len() ==> s[k] != c,
        },
    decreases s.len(),
{
    if s.len() > 0 && s.last() != c {
        lemma_last_index_of_props(s.drop_last(), c);
        assert forall|k: int| 0 <= k < s.len() - 1 implies s[k] == s.drop_last()[k] by {}
    }
}

/// Last occurrence of `c` among the first `end` characters of `s`, scanning
/// from the end.
pub(crate) fn find_last_index_within(s: &str, c: char, end: usize) -> (r: Option<usize>)
    requires
        end <= s@.len(),
    ensures
        match r {
            Some(j) => spec_last_index_of(s@.take(end as int), c) == Some(j as int),
            None => spec_last_index_of(s@.take(end as int), c) is None,
        },
{
    let mut i = end;
    while i > 0
        invariant
            i <= end <= s@.len(),
            spec_last_index_of(s@.take(end as int), c) == spec_last_index_of(s@.take(i as int), c),
        decreases i,
    {
        if s.get_char(i - 1) == c {
            proof {
                assert(s@.take(i as int).last() == s@[i as int - 1]);
            }
            return Some(i - 1);
        }
        proof {
            assert(s@.take(i as int).drop_last() =~= s@.take(i as int - 1));
        }
        i = i - 1;
    }
    proof {
        assert(s@.take(0).len() == 0);
    }
    None
}

/// Last occurrence of `c` in `s`, scanning from the end.
pub(crate) fn find_last_index_of(s: &str, c: char) -> (r: Option<usize>)
    ensures
        match r {
            Some(j) => spec_last_index_of(s@, c) == Some(j as int),
            None => spec_last_index_of(s@, c) is None,
        },
{
    let n = s.unicode_len();
    proof {
        assert(s@.take(n as int) =~= s@);
    }
    find_last_index_within(s, c, n)
}

/// Character-wise string equality, stated over the views.
pub(crate) fn str_eq(a: &str, b: &str) -> (r: bool)
    ensures
        r == (a@ == b@),
{
    let na = a.unicode_len();
    let nb = b.unicode_len();
    if na != nb {
        return false;
    }
    let mut i: usize = 0;
    while i < na
        invariant
            i <= na,
            na == a@.len(),
            na == b@.len(),
            forall|j: int| 0 <= j < i ==> a@[j] == b@[j],
        decreases na - i,
    {
        if a.get_char(i) != b.get_char(i) {
            return false;
        }
        i += 1;
    }
    proof {
        assert(a@ =~= b@);
    }
    true
}

/// Compression of `s` to at most `limit` characters: unchanged when it fits,
/// a bare prefix when the budget is under five characters, and otherwise a
/// prefix, a three-character ellipsis, and a suffix, with the split biased
/// toward the suffix once the budget allows it.
pub open spec fn spec_truncate(s: Seq<char>, limit: nat) -> Seq<char> {
    if s.len() <= limit {
        s
    } else if limit < 5 {
        s.take(limit as int)
    } else {
        let avail = (limit - 3) as nat;
        let start: nat = if avail <= 4 {
            1
        } else if avail <= 6 {
            avail / 2
        } else {
            3
        };
        let end = (avail - start) as nat;
        s.take(start as int) + "..."@ + s.skip(s.len() - end)
    }
}

pub proof fn lemma_truncate_len(s: Seq<char>, limit: nat)
    ensures
        spec_truncate(s, limit).len() <= limit,
        s.len() <= limit ==> spec_truncate(s, limit) == s,
{
    reveal_strlit("...");
}

/// Length, dot included, of the suffix of `name` treated as an extension:
/// the part from the last dot on, provided that dot is neither the first nor
/// the last character and the suffix is at most five characters. Zero when no
/// such suffix exists.
pub open spec fn spec_ext_len(name: Seq<char>) -> nat {
    match spec_last_index_of(name, '.') {
        Some(p) => if 0 < p && p + 1 < name.len() && name.len() - p <= 5 {
            (name.len() - p) as nat
        } else {
            0
        },
        None => 0,
    }
}

/// Filename compression: empty on a zero budget or an empty name, unchanged
/// when it fits, and otherwise the name portion compressed to the budget left
/// by the detected extension, which is appended verbatim. When the extension
/// alone consumes the whole budget the full string is compressed instead.
pub open spec fn spec_transform(name: Seq<char>, limit: nat) -> Seq<char> {
    if limit == 0 || name.len() == 0 {
        Seq::empty()
    } else if name.len() <= limit {
        name
    } else {
        let el = spec_ext_len(name);
        if el >= limit {
            spec_truncate(name, limit)
        } else {
            spec_truncate(name.take(name.len() - el), (limit - el) as nat)
                + name.skip(name.len() - el)
        }
    }
}

/// Character length of the extension split of `name`, as `spec_ext_len`.
fn ext_split_len(name: &str) -> (el: usize)
    ensures
        el as nat == spec_ext_len(name@),
        el <= name@.len(),
{
    let n = name.unicode_len();
    proof {
        lemma_last_index_of_props(name@, '.');
    }
    match find_last_index_of(name, '.') {
        Some(p) => {
            if 0 < p && p + 1 < n && n - p <= 5 {
                n - p
            } else {
                0
            }
        },
        None => 0,
    }
}

/// Compresses `s` to at most `limit` characters, keeping a prefix and a
/// suffix around an ellipsis once the budget allows one.
pub fn truncate_string(s: &str, limit: usize) -> (r: String)
    ensures
        r@ == spec_truncate(s@, limit as nat),
        r@.len() <= limit,
        s@.len() <= limit ==> r@ == s@,
{
    proof {
        lemma_truncate_len(s@, limit as nat);
    }
    let n = s.unicode_len();
    if n <= limit {
        return s.to_owned();
    }
    if limit < 5 {
        return String::from_str(s.substring_char(0, limit));
    }
    let avail = limit - 3;
    let start_chars: usize = if avail <= 4 {
        1
    } else if avail <= 6 {
        avail / 2
    } else {
        3
    };
    let end_chars = avail - start_chars;
    let prefix = s.substring_char(0, start_chars);
    let suffix = s.substring_char(n - end_chars, n);
    String::from_str(prefix).concat("...").concat(suffix)
}

/// Shortens `filename` to at most `limit` characters, preserving a short
/// extension verbatim and compressing the name portion around an ellipsis.
/// The result always fits the budget, and a name that already fits is
/// returned unchanged.
pub fn transform_filename(filename: &str, limit: usize) -> (r: String)
    ensures
        r@ == spec_transform(filename@, limit as nat),
        r@.len() <= limit,
        filename@.len() <= limit ==> r@ == filename@,
{
    let n = filename.unicode_len();
    if limit == 0 || n == 0 {
        let r = String::new();
        proof {
            assert(r@ =~= spec_transform(filename@, limit as nat));
            if filename@.len() <= limit {
                assert(r@ =~= filename@);
            }
        }
        return r;
    }
    if n <= limit {
        return filename.to_owned();
    }
    let el = ext_split_len(filename);
    if el >= limit {
        return truncate_string(filename, limit);
    }
    let name_part = filename.substring_char(0, n - el);
    let ext_part = filename.substring_char(n - el, n);
    let truncated = truncate_string(name_part, limit - el);
    truncated.concat(ext_part)
}

} // verus!
