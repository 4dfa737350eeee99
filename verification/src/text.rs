//! Character-level helpers: ASCII case folding and case-insensitive
//! substring search over `&str`, specified over `Seq<char>` views.

use vstd::prelude::*;
use vstd::string::StrSliceExecFns;

verus! {

/// ASCII lowercase of a single character; every other character is unchanged.
pub open spec fn lower_char(c: char) -> char {
    if 65 <= c as u32 && c as u32 <= 90 {
        ((c as u8) + 32) as char
    } else {
        c
    }
}

/// A character sequence with every ASCII uppercase letter folded to lowercase.
pub open spec fn lower_chars(s: Seq<char>) -> Seq<char> {
    s.map_values(|c: char| lower_char(c))
}

/// `h` holds `n` as a contiguous subsequence.
pub open spec fn contains_seq(h: Seq<char>, n: Seq<char>) -> bool {
    exists|i: int| 0 <= i && i + n.len() <= h.len() && #[trigger] h.subrange(i, i + n.len()) == n
}

fn lower_char_exec(c: char) -> (r: char)
    ensures
        r == lower_char(c),
{
    let u = c as u32;
    if 65 <= u && u <= 90 {
        ((c as u8) + 32) as char
    } else {
        c
    }
}

fn window_matches(h: &str, n: &str, i: usize) -> (r: bool)
    requires
        i + n@.len() <= h@.len(),
        h@.len() <= usize::MAX,
    ensures
        r == (lower_chars(h@).subrange(i as int, i as int + n@.len()) == lower_chars(n@)),
{
    let nl = n.unicode_len();
    let mut j: usize = 0;
    while j < nl
        invariant
            nl == n@.len(),
            i + nl <= h@.len(),
            h@.len() <= usize::MAX,
            j <= nl,
            forall|k: int| 0 <= k < j ==> lower_char(h@[i + k]) == lower_char(n@[k]),
        decreases nl - j,
    {
        let hc = lower_char_exec(h.get_char(i + j));
        let nc = lower_char_exec(n.get_char(j));
        if hc != nc {
            proof {
                assert(lower_chars(h@).subrange(i as int, i as int + n@.len())[j as int]
                    == lower_char(h@[i + j]));
                assert(lower_chars(n@)[j as int] == lower_char(n@[j as int]));
            }
            return false;
        }
        j += 1;
    }
    proof {
        assert(lower_chars(h@).subrange(i as int, i as int + n@.len()) =~= lower_chars(n@));
    }
    true
}

/// Case-insensitive (ASCII) substring search: decides whether `h`, folded to
/// lowercase, contains `n` folded to lowercase.
pub fn contains_ci(h: &str, n: &str) -> (r: bool)
    ensures
        r == contains_seq(lower_chars(h@), lower_chars(n@)),
{
    let hl = h.unicode_len();
    let nl = n.unicode_len();
    if nl > hl {
        return false;
    }
    if nl == 0 {
        proof {
            assert(lower_chars(h@).subrange(0, 0 + lower_chars(n@).len() as int) =~= lower_chars(n@));
        }
        return true;
    }
    let mut i: usize = 0;
    while i <= hl - nl
        invariant
            hl == h@.len(),
            nl == n@.len(),
            1 <= nl <= hl,
            i <= hl - nl + 1,
            forall|k: int| 0 <= k < i
                ==> #[trigger] lower_chars(h@).subrange(k, k + n@.len()) != lower_chars(n@),
        decreases hl - nl - i + 1,
    {
        if window_matches(h, n, i) {
            proof {
                assert(0 <= i as int && i as int + lower_chars(n@).len()
                    <= lower_chars(h@).len());
            }
            return true;
        }
        i += 1;
    }
    false
}

} // verus!
