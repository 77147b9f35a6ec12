//! Pure text computations shared by the crawler: decimal numerals for item
//! identifiers, the trailing path segment of a URL, and path joining.

use vstd::prelude::*;
use vstd::string::StrSliceExecFns;
use vstd::string::StringExecFns;

verus! {

/// The decimal digit character for `d`, which must be below ten.
pub open spec fn digit_char(d: nat) -> char {
    if d == 0 {
        '0'
    } else if d == 1 {
        '1'
    } else if d == 2 {
        '2'
    } else if d == 3 {
        '3'
    } else if d == 4 {
        '4'
    } else if d == 5 {
        '5'
    } else if d == 6 {
        '6'
    } else if d == 7 {
        '7'
    } else if d == 8 {
        '8'
    } else {
        '9'
    }
}

/// The decimal numeral of `n`, most significant digit first, without sign
/// or leading zeros (the numeral of zero is "0").
pub open spec fn dec_digits(n: nat) -> Seq<char>
    decreases n,
{
    if n < 10 {
        seq![digit_char(n)]
    } else {
        dec_digits(n / 10) + seq![digit_char(n % 10)]
    }
}

fn digit_str(d: u64) -> (s: &'static str)
    requires
        d < 10,
    ensures
        s@ == seq![digit_char(d as nat)],
{
    if d == 0 {
        let s = "0";
        proof {
            reveal_strlit("0");
            assert(s@ =~= seq![digit_char(d as nat)]);
        }
        s
    } else if d == 1 {
        let s = "1";
        proof {
            reveal_strlit("1");
            assert(s@ =~= seq![digit_char(d as nat)]);
        }
        s
    } else if d == 2 {
        let s = "2";
        proof {
            reveal_strlit("2");
            assert(s@ =~= seq![digit_char(d as nat)]);
        }
        s
    } else if d == 3 {
        let s = "3";
        proof {
            reveal_strlit("3");
            assert(s@ =~= seq![digit_char(d as nat)]);
        }
        s
    } else if d == 4 {
        let s = "4";
        proof {
            reveal_strlit("4");
            assert(s@ =~= seq![digit_char(d as nat)]);
        }
        s
    } else if d == 5 {
        let s = "5";
        proof {
            reveal_strlit("5");
            assert(s@ =~= seq![digit_char(d as nat)]);
        }
        s
    } else if d == 6 {
        let s = "6";
        proof {
            reveal_strlit("6");
            assert(s@ =~= seq![digit_char(d as nat)]);
        }
        s
    } else if d == 7 {
        let s = "7";
        proof {
            reveal_strlit("7");
            assert(s@ =~= seq![digit_char(d as nat)]);
        }
        s
    } else if d == 8 {
        let s = "8";
        proof {
            reveal_strlit("8");
            assert(s@ =~= seq![digit_char(d as nat)]);
        }
        s
    } else {
        let s = "9";
        proof {
            reveal_strlit("9");
            assert(s@ =~= seq![digit_char(d as nat)]);
        }
        s
    }
}

/// Renders `n` as its decimal numeral.
pub fn u64_to_dec(n: u64) -> (s: String)
    ensures
        s@ == dec_digits(n as nat),
    decreases n,
{
    if n < 10 {
        digit_str(n).to_owned()
    } else {
        let mut s = u64_to_dec(n / 10);
        s.append(digit_str(n % 10));
        s
    }
}

/// The part of `s` after its last '/', or all of `s` when it holds none.
pub open spec fn tail_segment(s: Seq<char>) -> Seq<char>
    decreases s.len(),
{
    if s.len() == 0 {
        s
    } else if s.last() == '/' {
        Seq::<char>::empty()
    } else {
        tail_segment(s.drop_last()) + seq![s.last()]
    }
}

proof fn lemma_tail_segment_at(s: Seq<char>, i: int)
    requires
        0 <= i <= s.len(),
        i == 0 || s[i - 1] == '/',
        forall|j: int| i <= j < s.len() ==> s[j] != '/',
    ensures
        tail_segment(s) == s.subrange(i, s.len() as int),
    decreases s.len(),
{
    if i == s.len() {
        assert(tail_segment(s) =~= s.subrange(i, s.len() as int));
    } else {
        assert(s[s.len() - 1] != '/');
        lemma_tail_segment_at(s.drop_last(), i);
        assert(tail_segment(s) =~= s.subrange(i, s.len() as int));
    }
}

/// The trailing path segment of `url`: everything after the last '/'.  A
/// URL without a '/' is its own trailing segment.
pub fn file_name(url: &str) -> (r: String)
    ensures
        r@ == tail_segment(url@),
{
    let n = url.unicode_len();
    let mut i: usize = n;
    while i > 0 && url.get_char(i - 1) != '/'
        invariant
            i <= n,
            n == url@.len(),
            forall|j: int| i <= j < n ==> url@[j] != '/',
        decreases i,
    {
        i = i - 1;
    }
    proof {
        lemma_tail_segment_at(url@, i as int);
    }
    url.substring_char(i, n).to_owned()
}

/// True when `s` is a nonempty run of decimal digit characters.
pub open spec fn all_dec_digits(s: Seq<char>) -> bool {
    s.len() > 0 && forall|i: int| 0 <= i < s.len() ==> 48 <= #[trigger] (s[i] as u32) <= 57
}

/// The value of a run of decimal digits, most significant first.
pub open spec fn dec_value(s: Seq<char>) -> int
    decreases s.len(),
{
    if s.len() == 0 {
        0
    } else {
        dec_value(s.drop_last()) * 10 + (s.last() as u32 - 48)
    }
}

/// The digits of `s` once one leading '+' sign, if any, is removed.
pub open spec fn unsigned_part(s: Seq<char>) -> Seq<char> {
    if s.len() > 0 && s[0] == '+' {
        s.subrange(1, s.len() as int)
    } else {
        s
    }
}

proof fn lemma_dec_value_mono(s: Seq<char>, start: int, k: int)
    requires
        0 <= start <= k <= s.len(),
        forall|j: int| start <= j < s.len() ==> 48 <= #[trigger] (s[j] as u32) <= 57,
    ensures
        0 <= dec_value(s.subrange(start, k)) <= dec_value(s.subrange(start, s.len() as int)),
    decreases s.len() - k,
{
    if k == s.len() {
        lemma_dec_value_nonneg(s, start);
    } else {
        lemma_dec_value_mono(s, start, k + 1);
        lemma_dec_value_nonneg(s, start);
        let shorter = s.subrange(start, k);
        let longer = s.subrange(start, k + 1);
        assert(longer.drop_last() =~= shorter);
        assert(longer.last() == s[k]);
        assert(dec_value(longer) == dec_value(shorter) * 10 + (s[k] as u32 - 48));
        assert(dec_value(shorter) <= dec_value(shorter) * 10 + (s[k] as u32 - 48));
    }
}

proof fn lemma_dec_value_nonneg(s: Seq<char>, start: int)
    requires
        0 <= start <= s.len(),
        forall|j: int| start <= j < s.len() ==> 48 <= #[trigger] (s[j] as u32) <= 57,
    ensures
        forall|k: int|
            start <= k <= s.len() ==> 0 <= #[trigger] dec_value(s.subrange(start, k)),
{
    assert forall|k: int| start <= k <= s.len() implies 0 <= #[trigger] dec_value(
        s.subrange(start, k),
    ) by {
        lemma_dec_value_nonneg_upto(s, start, k);
    }
}

proof fn lemma_dec_value_nonneg_upto(s: Seq<char>, start: int, k: int)
    requires
        0 <= start <= k <= s.len(),
        forall|j: int| start <= j < s.len() ==> 48 <= #[trigger] (s[j] as u32) <= 57,
    ensures
        0 <= dec_value(s.subrange(start, k)),
    decreases k - start,
{
    if k == start {
    } else {
        lemma_dec_value_nonneg_upto(s, start, k - 1);
        let longer = s.subrange(start, k);
        assert(longer.drop_last() =~= s.subrange(start, k - 1));
        assert(longer.last() == s[k - 1]);
    }
}

/// Reads `s` as an unsigned decimal item identifier, as the search
/// payload writes one: an optional leading '+', then at least one digit,
/// with a value that fits in 64 bits.  Anything else is `None`.
pub fn parse_decimal_id(s: &str) -> (r: Option<u64>)
    ensures
        r is Some <==> (all_dec_digits(unsigned_part(s@)) && dec_value(unsigned_part(s@))
            <= u64::MAX),
        r matches Some(v) ==> v as int == dec_value(unsigned_part(s@)),
{
    let n = s.unicode_len();
    let start: usize = if n > 0 && (s.get_char(0) as u32) == 43 {
        1
    } else {
        0
    };
    let ghost u = unsigned_part(s@);
    proof {
        assert(u =~= s@.subrange(start as int, n as int));
    }
    if start == n {
        return None;
    }
    let mut i: usize = start;
    let mut val: u64 = 0;
    while i < n
        invariant
            start <= i <= n,
            n == s@.len(),
            u == unsigned_part(s@),
            u =~= s@.subrange(start as int, n as int),
            forall|j: int| start <= j < i ==> 48 <= #[trigger] (s@[j] as u32) <= 57,
            val as int == dec_value(s@.subrange(start as int, i as int)),
        decreases n - i,
    {
        let c = s.get_char(i) as u32;
        if c < 48 || c > 57 {
            proof {
                assert(u[i - start] == s@[i as int]);
                assert(!(48 <= (u[i - start] as u32) <= 57));
                assert(!all_dec_digits(u));
            }
            return None;
        }
        let d = (c - 48) as u64;
        let ghost prefix = s@.subrange(start as int, i as int);
        let ghost extended = s@.subrange(start as int, i + 1);
        proof {
            assert(extended.drop_last() =~= prefix);
            assert(extended.last() == s@[i as int]);
            assert(dec_value(extended) == dec_value(prefix) * 10 + d);
        }
        let stretched = match val.checked_mul(10) {
            Some(v10) => v10.checked_add(d),
            None => None,
        };
        match stretched {
            Some(v) => {
                val = v;
            },
            None => {
                proof {
                    assert(dec_value(extended) > u64::MAX);
                    if all_dec_digits(u) {
                        assert forall|j: int|
                            start <= j < s@.len() implies 48 <= #[trigger] (s@[j] as u32)
                            <= 57 by {
                            assert(u[j - start] == s@[j]);
                            assert(48 <= (u[j - start] as u32) <= 57);
                        };
                        lemma_dec_value_mono(s@, start as int, i + 1);
                        assert(dec_value(u) == dec_value(s@.subrange(start as int, n as int)));
                        assert(dec_value(u) > u64::MAX);
                    }
                }
                return None;
            },
        }
        i = i + 1;
    }
    proof {
        assert(u =~= s@.subrange(start as int, n as int));
        assert(all_dec_digits(u)) by {
            assert(forall|j: int| 0 <= j < u.len() ==> u[j] == s@[j + start]);
        };
    }
    Some(val)
}

/// Strict lexicographic order on character sequences, by code point: the
/// order in which an ordered map hands string keys out.
pub open spec fn chars_lt(a: Seq<char>, b: Seq<char>) -> bool
    decreases a.len(),
{
    if b.len() == 0 {
        false
    } else if a.len() == 0 {
        true
    } else if a[0] != b[0] {
        (a[0] as u32) < (b[0] as u32)
    } else {
        chars_lt(a.drop_first(), b.drop_first())
    }
}

/// Strict lexicographic order is transitive.
pub proof fn lemma_chars_lt_trans(a: Seq<char>, b: Seq<char>, c: Seq<char>)
    requires
        chars_lt(a, b),
        chars_lt(b, c),
    ensures
        chars_lt(a, c),
    decreases b.len(),
{
    if a.len() > 0 && a[0] == b[0] && b[0] == c[0] {
        lemma_chars_lt_trans(a.drop_first(), b.drop_first(), c.drop_first());
    }
}

/// Compares two strings in strict lexicographic order by code point.
pub fn str_lt(a: &str, b: &str) -> (r: bool)
    ensures
        r == chars_lt(a@, b@),
{
    let na = a.unicode_len();
    let nb = b.unicode_len();
    let mut i: usize = 0;
    proof {
        assert(a@.skip(0) =~= a@);
        assert(b@.skip(0) =~= b@);
    }
    while i < na && i < nb
        invariant
            i <= na,
            i <= nb,
            na == a@.len(),
            nb == b@.len(),
            chars_lt(a@, b@) == chars_lt(a@.skip(i as int), b@.skip(i as int)),
        decreases na - i,
    {
        let ca = a.get_char(i);
        let cb = b.get_char(i);
        proof {
            assert(a@.skip(i as int)[0] == a@[i as int]);
            assert(b@.skip(i as int)[0] == b@[i as int]);
        }
        if ca != cb {
            return (ca as u32) < (cb as u32);
        }
        proof {
            assert(a@.skip(i as int).drop_first() =~= a@.skip(i + 1));
            assert(b@.skip(i as int).drop_first() =~= b@.skip(i + 1));
        }
        i = i + 1;
    }
    proof {
        if i < nb {
            assert(a@.skip(i as int).len() == 0);
            assert(b@.skip(i as int).len() > 0);
        } else {
            assert(b@.skip(i as int).len() == 0);
        }
    }
    i < nb
}

/// `base` extended with a '/' separator and `leaf`, as path joining
/// writes it.
pub fn join_path(base: &str, leaf: &str) -> (p: String)
    ensures
        p@ == base@ + "/"@ + leaf@,
{
    let mut p = base.to_owned();
    p.append("/");
    p.append(leaf);
    p
}

} // verus!
