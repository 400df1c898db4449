//! String-building utilities shared by the SQL synthesis and
//! record-conversion modules: character-exact equality, decimal rendering,
//! separator joins and quote escaping, each pinned to a spec function.
use vstd::prelude::*;
use vstd::string::StrSliceExecFns;
use vstd::string::StringExecFns;

verus! {

/// Relies on std's String::push: appends exactly one character at the end.
#[verifier::external_body]
pub(crate) fn push_char(s: &mut String, c: char)
    ensures
        final(s)@ == old(s)@.push(c),
{
    s.push(c);
}

/// Character-exact equality of two string slices.
pub fn str_eq(a: &str, b: &str) -> (r: bool)
    ensures
        r == (a@ == b@),
{
    let alen = a.unicode_len();
    let blen = b.unicode_len();
    if alen != blen {
        return false;
    }
    let mut i: usize = 0;
    while i < alen
        invariant
            alen == a@.len(),
            blen == b@.len(),
            alen == blen,
            i <= alen,
            forall|j: int| 0 <= j < i ==> a@[j] == b@[j],
        decreases alen - i,
    {
        if a.get_char(i) != b.get_char(i) {
            return false;
        }
        i += 1;
    }
    proof {
        assert(a@ =~= b@);
    }
    true
}

pub open spec fn dec_digit(d: int) -> char {
    if d == 0 {
        '0'
    } else if d == 1 {
        '1'
    } else if d == 2 {
        '2'
    } else if d == 3 {
        '3'
    } else if d == 4 {
        '4'
    } else if d == 5 {
        '5'
    } else if d == 6 {
        '6'
    } else if d == 7 {
        '7'
    } else if d == 8 {
        '8'
    } else {
        '9'
    }
}

/// The decimal digit string of a non-negative integer, most significant first.
pub open spec fn dec_rep(n: int) -> Seq<char>
    recommends
        n >= 0,
    decreases n,
{
    if n < 10 {
        seq![dec_digit(n)]
    } else {
        dec_rep(n / 10).push(dec_digit(n % 10))
    }
}

/// The decimal digit string of an integer, with a leading minus sign when negative.
pub open spec fn dec_rep_signed(v: int) -> Seq<char> {
    if v >= 0 {
        dec_rep(v)
    } else {
        seq!['-'] + dec_rep(-v)
    }
}

fn dec_digit_exec(d: u64) -> (c: char)
    requires
        d < 10,
    ensures
        c == dec_digit(d as int),
{
    if d == 0 {
        '0'
    } else if d == 1 {
        '1'
    } else if d == 2 {
        '2'
    } else if d == 3 {
        '3'
    } else if d == 4 {
        '4'
    } else if d == 5 {
        '5'
    } else if d == 6 {
        '6'
    } else if d == 7 {
        '7'
    } else if d == 8 {
        '8'
    } else {
        '9'
    }
}

/// Renders an unsigned integer in decimal.
pub fn u64_to_dec_string(n: u64) -> (r: String)
    ensures
        r@ == dec_rep(n as int),
{
    let mut digits: Vec<char> = Vec::new();
    digits.push(dec_digit_exec(n % 10));
    let mut m: u64 = n / 10;
    proof {
        assert((digits@.push(dec_digit(m as int))).reverse() =~= seq![dec_digit(m as int)]
            + digits@.reverse());
    }
    while m > 0
        invariant
            dec_rep(n as int) == if m == 0 {
                digits@.reverse()
            } else {
                dec_rep(m as int) + digits@.reverse()
            },
            digits@.len() >= 1,
        decreases m,
    {
        let ghost pre = digits@;
        digits.push(dec_digit_exec(m % 10));
        proof {
            assert(digits@.reverse() =~= seq![dec_digit((m as int) % 10)] + pre.reverse());
            if m >= 10 {
                assert(dec_rep(m as int) == dec_rep(m as int / 10).push(
                    dec_digit((m as int) % 10),
                ));
                assert(dec_rep(m as int / 10).push(dec_digit((m as int) % 10)) + pre.reverse()
                    =~= dec_rep(m as int / 10) + (seq![dec_digit((m as int) % 10)]
                    + pre.reverse()));
            } else {
                assert(dec_rep(m as int) =~= seq![dec_digit(m as int % 10)]);
            }
        }
        m = m / 10;
    }
    let mut r = String::new();
    let len = digits.len();
    let mut k: usize = len;
    while k > 0
        invariant
            len == digits@.len(),
            k <= len,
            r@.len() == len - k,
            forall|j: int| 0 <= j < len - k ==> r@[j] == digits@[len - 1 - j],
        decreases k,
    {
        push_char(&mut r, digits[k - 1]);
        k = k - 1;
    }
    proof {
        assert(r@ =~= digits@.reverse());
    }
    r
}

/// Renders a signed integer in decimal.
pub fn i64_to_dec_string(n: i64) -> (r: String)
    ensures
        r@ == dec_rep_signed(n as int),
{
    if n >= 0 {
        let r = u64_to_dec_string(n as u64);
        r
    } else {
        let mag: u64 = ((-(n + 1)) as u64) + 1;
        proof {
            assert(mag as int == -(n as int));
        }
        let mut r = String::from_str("-");
        let tail = u64_to_dec_string(mag);
        r.append(tail.as_str());
        proof {
            reveal_strlit("-");
            assert(r@ =~= seq!['-'] + dec_rep(-(n as int)));
        }
        r
    }
}

/// Renders a 32-bit signed integer in decimal.
pub fn i32_to_dec_string(n: i32) -> (r: String)
    ensures
        r@ == dec_rep_signed(n as int),
{
    i64_to_dec_string(n as i64)
}

/// The items of `items` concatenated with `sep` between each adjacent pair.
pub open spec fn join_with(items: Seq<Seq<char>>, sep: Seq<char>) -> Seq<char>
    decreases items.len(),
{
    if items.len() == 0 {
        Seq::empty()
    } else if items.len() == 1 {
        items[0]
    } else {
        join_with(items.drop_last(), sep) + sep + items.last()
    }
}

/// Joins rendered pieces with a separator.
pub fn join_strings(items: &Vec<String>, sep: &str) -> (r: String)
    ensures
        r@ == join_with(items@.map_values(|s: String| s@), sep@),
{
    let ghost m = items@.map_values(|s: String| s@);
    let mut r = String::new();
    let mut i: usize = 0;
    while i < items.len()
        invariant
            m == items@.map_values(|s: String| s@),
            i <= items@.len(),
            r@ == join_with(m.subrange(0, i as int), sep@),
        decreases items@.len() - i,
    {
        let ghost pre = m.subrange(0, i as int);
        if i > 0 {
            r.append(sep);
        }
        r.append(items[i].as_str());
        proof {
            let post = m.subrange(0, i + 1 as int);
            assert(post.drop_last() =~= pre);
            assert(post.last() == items@[i as int]@);
            if i == 0 {
                assert(join_with(post, sep@) == items@[0]@);
            }
        }
        i += 1;
    }
    proof {
        assert(m.subrange(0, items@.len() as int) =~= m);
    }
    r
}

/// `s` with every occurrence of `q` doubled.
pub open spec fn escape_doubling(s: Seq<char>, q: char) -> Seq<char>
    decreases s.len(),
{
    if s.len() == 0 {
        Seq::empty()
    } else {
        escape_doubling(s.drop_last(), q) + (if s.last() == q {
            seq![q, q]
        } else {
            seq![s.last()]
        })
    }
}

/// Doubles every occurrence of `q` in `s`.
pub fn escape_by_doubling(s: &str, q: char) -> (r: String)
    ensures
        r@ == escape_doubling(s@, q),
{
    let len = s.unicode_len();
    let mut r = String::new();
    let mut i: usize = 0;
    while i < len
        invariant
            len == s@.len(),
            i <= len,
            r@ == escape_doubling(s@.subrange(0, i as int), q),
        decreases len - i,
    {
        let ghost pre = s@.subrange(0, i as int);
        let c = s.get_char(i);
        if c == q {
            push_char(&mut r, q);
            push_char(&mut r, q);
        } else {
            push_char(&mut r, c);
        }
        proof {
            let post = s@.subrange(0, i + 1 as int);
            assert(post.drop_last() =~= pre);
            assert(post.last() == c);
            if c == q {
                assert(r@ =~= escape_doubling(pre, q) + seq![q, q]);
            } else {
                assert(r@ =~= escape_doubling(pre, q) + seq![c]);
            }
        }
        i += 1;
    }
    proof {
        assert(s@.subrange(0, s@.len() as int) =~= s@);
    }
    r
}

} // verus!
