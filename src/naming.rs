//! Creep names: a role prefix, a dash and an ordinal, as in `builder-0`.

use vstd::prelude::*;

verus! {

pub open spec fn is_digit(b: u8) -> bool {
    48 <= b <= 57
}

pub const DASH: u8 = 45;

pub const PLUS: u8 = 43;

/// The name with its trailing decimal digits removed, then its trailing
/// dashes.
pub open spec fn role_prefix(s: Seq<u8>) -> Seq<u8> {
    trim_dashes(trim_digits(s))
}

pub open spec fn trim_digits(s: Seq<u8>) -> Seq<u8>
    decreases s.len(),
{
    if s.len() > 0 && is_digit(s.last()) {
        trim_digits(s.drop_last())
    } else {
        s
    }
}

pub open spec fn trim_dashes(s: Seq<u8>) -> Seq<u8>
    decreases s.len(),
{
    if s.len() > 0 && s.last() == DASH {
        trim_dashes(s.drop_last())
    } else {
        s
    }
}

/// Index of the first dash.
pub open spec fn first_dash(s: Seq<u8>) -> Option<int>
    decreases s.len(),
{
    if s.len() == 0 {
        None
    } else {
        match first_dash(s.drop_last()) {
            Some(i) => Some(i),
            None => if s.last() == DASH {
                Some(s.len() - 1)
            } else {
                None
            },
        }
    }
}

/// The text between the first dash and the next one (or the end).
pub open spec fn second_segment(s: Seq<u8>) -> Option<Seq<u8>> {
    match first_dash(s) {
        Some(i) => {
            let rest = s.skip(i + 1);
            match first_dash(rest) {
                Some(j) => Some(rest.take(j)),
                None => Some(rest),
            }
        },
        None => None,
    }
}

/// Decimal value of a run of digits.
pub open spec fn digits_value(s: Seq<u8>) -> int
    decreases s.len(),
{
    if s.len() == 0 {
        0
    } else {
        digits_value(s.drop_last()) * 10 + (s.last() - 48)
    }
}

pub open spec fn all_digits(s: Seq<u8>) -> bool {
    forall|i: int| 0 <= i < s.len() ==> is_digit(#[trigger] s[i])
}

/// A byte value written in decimal, with an optional leading `+`.
pub open spec fn parse_u8(s: Seq<u8>) -> Option<u8> {
    let d = if s.len() > 0 && s[0] == PLUS {
        s.drop_first()
    } else {
        s
    };
    if d.len() > 0 && all_digits(d) && digits_value(d) <= 255 {
        Some(digits_value(d) as u8)
    } else {
        None
    }
}

/// The ordinal a name encodes in its second segment; 255 when it has none
/// or it is not a byte value.
pub open spec fn ordinal_of(s: Seq<u8>) -> u8 {
    match second_segment(s) {
        Some(seg) => match parse_u8(seg) {
            Some(v) => v,
            None => 255,
        },
        None => 255,
    }
}

/// Computes the length of [`role_prefix`].
pub fn role_prefix_len(s: &[u8]) -> (r: usize)
    ensures
        r <= s@.len(),
        s@.take(r as int) == role_prefix(s@),
{
    let mut n: usize = s.len();
    assert(s@.take(n as int) =~= s@);
    while n > 0 && s[n - 1] >= 48 && s[n - 1] <= 57
        invariant
            n <= s@.len(),
            trim_digits(s@.take(n as int)) == trim_digits(s@),
        decreases n,
    {
        assert(s@.take(n as int).drop_last() =~= s@.take(n - 1));
        n = n - 1;
    }
    let ghost k: int = n as int;
    assert(trim_digits(s@.take(n as int)) == s@.take(n as int));
    while n > 0 && s[n - 1] == DASH
        invariant
            n <= k <= s@.len(),
            trim_dashes(s@.take(n as int)) == trim_dashes(s@.take(k)),
            trim_digits(s@) == s@.take(k),
        decreases n,
    {
        assert(s@.take(n as int).drop_last() =~= s@.take(n - 1));
        n = n - 1;
    }
    n
}

/// Index of the first dash at or after `from`, or the length when none.
fn dash_from(s: &[u8], from: usize) -> (r: usize)
    requires
        from <= s@.len(),
    ensures
        from <= r <= s@.len(),
        r < s@.len() ==> s@[r as int] == DASH,
        forall|i: int| from <= i < r ==> s@[i] != DASH,
{
    let mut i = from;
    while i < s.len() && s[i] != DASH
        invariant
            from <= i <= s@.len(),
            forall|j: int| from <= j < i ==> s@[j] != DASH,
        decreases s@.len() - i,
    {
        i = i + 1;
    }
    i
}

/// `first_dash` finds exactly the first dash.
proof fn lemma_first_dash(s: Seq<u8>, r: int)
    requires
        0 <= r <= s.len(),
        r < s.len() ==> s[r] == DASH,
        forall|i: int| 0 <= i < r ==> s[i] != DASH,
    ensures
        first_dash(s) == (if r < s.len() {
            Some(r)
        } else {
            None::<int>
        }),
    decreases s.len(),
{
    if s.len() > 0 {
        if r < s.len() - 1 {
            lemma_first_dash(s.drop_last(), r);
        } else {
            lemma_first_dash(s.drop_last(), s.len() - 1);
        }
    }
}

/// Computes [`ordinal_of`].
pub fn ordinal(s: &[u8]) -> (r: u8)
    ensures
        r == ordinal_of(s@),
{
    let d = dash_from(s, 0);
    proof {
        lemma_first_dash(s@, d as int);
    }
    if d == s.len() {
        return 255;
    }
    let start = d + 1;
    let end = dash_from(s, start);
    proof {
        let rest = s@.skip(start as int);
        lemma_first_dash(rest, end - start);
        assert forall|i: int| 0 <= i < end - start implies rest[i] != DASH by {
            assert(rest[i] == s@[start + i]);
        }
        if end < s@.len() {
            assert(rest[end - start] == s@[end as int]);
        }
    }
    let ghost seg = s@.subrange(start as int, end as int);
    assert(seg =~= (if end < s@.len() {
        s@.skip(start as int).take(end - start)
    } else {
        s@.skip(start as int)
    }));
    assert(second_segment(s@) == Some(seg));
    let mut i = start;
    if i < end && s[i] == PLUS {
        i = i + 1;
    }
    let ghost d_seq = s@.subrange(i as int, end as int);
    assert(d_seq =~= (if seg.len() > 0 && seg[0] == PLUS {
        seg.drop_first()
    } else {
        seg
    }));
    if i == end {
        return 255;
    }
    let mut v: u32 = 0;
    let first = i;
    assert(ordinal_of(s@) == (if d_seq.len() > 0 && all_digits(d_seq) && digits_value(d_seq) <= 255 {
        digits_value(d_seq) as u8
    } else {
        255u8
    }));
    while i < end
        invariant
            first <= i <= end <= s@.len(),
            d_seq == s@.subrange(first as int, end as int),
            d_seq.len() > 0,
            ordinal_of(s@) == (if all_digits(d_seq) && digits_value(d_seq) <= 255 {
                digits_value(d_seq) as u8
            } else {
                255u8
            }),
            all_digits(s@.subrange(first as int, i as int)),
            v == digits_value(s@.subrange(first as int, i as int)),
            v <= 255,
        decreases end - i,
    {
        let b = s[i];
        assert(s@.subrange(first as int, i + 1).drop_last() =~= s@.subrange(first as int, i as int));
        assert(d_seq[i - first] == s@[i as int]);
        if b < 48 || b > 57 {
            assert(!is_digit(d_seq[i - first]));
            assert(!all_digits(d_seq));
            return 255;
        }
        let nv = v * 10 + (b - 48) as u32;
        if nv > 255 {
            proof {
                assert(d_seq.take(i - first + 1) =~= s@.subrange(first as int, i + 1));
                if all_digits(d_seq) {
                    lemma_digits_prefix_bound(d_seq, i - first + 1);
                    assert(digits_value(d_seq) > 255);
                }
            }
            return 255;
        }
        v = nv;
        i = i + 1;
    }
    assert(s@.subrange(first as int, i as int) =~= d_seq);
    v as u8
}

/// The value of a run of digits is at least that of any of its prefixes.
proof fn lemma_digits_prefix_bound(s: Seq<u8>, n: int)
    requires
        0 <= n <= s.len(),
        all_digits(s),
    ensures
        digits_value(s.take(n)) <= digits_value(s),
    decreases s.len() - n,
{
    if n < s.len() {
        lemma_digits_prefix_bound(s, n + 1);
        assert(s.take(n + 1).drop_last() =~= s.take(n));
        assert(is_digit(s[n]));
        assert(digits_value(s.take(n)) >= 0) by {
            lemma_digits_nonneg(s.take(n));
        }
    } else {
        assert(s.take(n) =~= s);
    }
}

proof fn lemma_digits_nonneg(s: Seq<u8>)
    requires
        all_digits(s),
    ensures
        digits_value(s) >= 0,
    decreases s.len(),
{
    if s.len() > 0 {
        assert(all_digits(s.drop_last())) by {
            assert forall|i: int| 0 <= i < s.drop_last().len() implies is_digit(#[trigger] s.drop_last()[i]) by {
                assert(s.drop_last()[i] == s[i]);
            }
        }
        lemma_digits_nonneg(s.drop_last());
    }
}

} // verus!
