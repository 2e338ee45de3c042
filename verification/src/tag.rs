//! Tag normalization: strip any non-digit prefix from a raw release tag.

use vstd::prelude::*;

use crate::chars::{digit, is_digit};

verus! {

/// The suffix of `s` that starts at its first decimal digit; empty when `s`
/// holds no digit at all.
pub open spec fn strip_non_digit_prefix(s: Seq<char>) -> Seq<char>
    decreases s.len(),
{
    if s.len() == 0 {
        s
    } else if is_digit(s[0]) {
        s
    } else {
        strip_non_digit_prefix(s.subrange(1, s.len() as int))
    }
}

/// The view of an optional raw tag.
pub open spec fn raw_tag_view(raw: Option<&str>) -> Option<Seq<char>> {
    match raw {
        Some(s) => Some(s@),
        None => None,
    }
}

/// What normalization returns: the default `"0"` for an absent or empty tag,
/// otherwise the tag with its longest non-digit prefix removed.
pub open spec fn normalize_spec(raw: Option<Seq<char>>) -> Seq<char> {
    match raw {
        None => seq!['0'],
        Some(s) => if s.len() == 0 {
            seq!['0']
        } else {
            strip_non_digit_prefix(s)
        },
    }
}

proof fn lemma_strip_at_first_digit(s: Seq<char>, i: int)
    requires
        0 <= i <= s.len(),
        forall|j: int| 0 <= j < i ==> !is_digit(s[j]),
        i < s.len() ==> is_digit(s[i]),
    ensures
        strip_non_digit_prefix(s) == s.subrange(i, s.len() as int),
    decreases i,
{
    if i == 0 {
        assert(s.subrange(0, s.len() as int) =~= s);
    } else {
        let t = s.subrange(1, s.len() as int);
        lemma_strip_at_first_digit(t, i - 1);
        assert(t.subrange(i - 1, t.len() as int) =~= s.subrange(i, s.len() as int));
    }
}

/// Normalizes a raw release tag: an absent or empty tag becomes `"0"`; any
/// other tag loses every leading character that is not a decimal digit. The
/// result may be empty when the tag holds no digit at all.
pub fn normalize_tag(raw: Option<&str>) -> (r: String)
    ensures
        r@ == normalize_spec(raw_tag_view(raw)),
{
    match raw {
        None => zero_tag(),
        Some(s) => {
            let n = s.unicode_len();
            if n == 0 {
                zero_tag()
            } else {
                let mut i: usize = 0;
                while i < n && !digit(s.get_char(i))
                    invariant
                        n == s@.len(),
                        0 <= i <= n,
                        forall|j: int| 0 <= j < i ==> !is_digit(s@[j]),
                    decreases n - i,
                {
                    i = i + 1;
                }
                proof {
                    lemma_strip_at_first_digit(s@, i as int);
                }
                s.substring_char(i, n).to_owned()
            }
        },
    }
}

/// The default tag used for an absent or empty raw tag.
fn zero_tag() -> (r: String)
    ensures
        r@ == seq!['0'],
{
    proof {
        reveal_strlit("0");
    }
    let r = "0".to_owned();
    assert(r@ =~= seq!['0']);
    r
}

/// Law: normalization is idempotent on digit-led tags. A tag that already
/// starts with a decimal digit is left unchanged, so normalizing it twice is
/// the same as normalizing it once.
pub proof fn lemma_normalize_idempotent(s: Seq<char>)
    requires
        s.len() > 0,
        is_digit(s[0]),
    ensures
        normalize_spec(Some(s)) == s,
        normalize_spec(Some(normalize_spec(Some(s)))) == normalize_spec(Some(s)),
{
}

} // verus!
