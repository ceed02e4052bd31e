use vstd::prelude::*;
use vstd::string::StrSliceExecFns;
use crate::text::push_char;

verus! {

/// Whether the character is a decimal digit.
pub open spec fn is_digit(c: char) -> bool {
    48 <= c as u32 <= 57
}

/// The numeric value of a decimal digit character.
pub open spec fn digit_val(c: char) -> int {
    c as u32 - 48
}

/// The value denoted by a sequence of decimal digits, most significant first.
pub open spec fn digits_val(s: Seq<char>) -> int
    decreases s.len(),
{
    if s.len() == 0 {
        0
    } else {
        digits_val(s.drop_last()) * 10 + digit_val(s.last())
    }
}

/// Whether every character of the sequence is a decimal digit.
pub open spec fn all_digits(s: Seq<char>) -> bool {
    forall|i: int| 0 <= i < s.len() ==> is_digit(#[trigger] s[i])
}

/// The digits of a numeral: the string with a single leading sign stripped.
pub open spec fn numeral_body(s: Seq<char>) -> Seq<char> {
    if s.len() > 0 && (s[0] == '+' || s[0] == '-') {
        s.subrange(1, s.len() as int)
    } else {
        s
    }
}

/// The sign a numeral denotes.
pub open spec fn numeral_sign(s: Seq<char>) -> int {
    if s.len() > 0 && s[0] == '-' {
        -1
    } else {
        1
    }
}

/// Whether the string is a decimal numeral: an optional sign, then at least
/// one digit and nothing else. This is the shape the standard library's
/// integer parsing accepts.
pub open spec fn is_numeral(s: Seq<char>) -> bool {
    numeral_body(s).len() > 0 && all_digits(numeral_body(s))
}

/// The integer a numeral denotes.
pub open spec fn numeral_val(s: Seq<char>) -> int {
    numeral_sign(s) * digits_val(numeral_body(s))
}

/// Whether the string is a decimal numeral whose value fits in an `i64`.
pub open spec fn is_i64_numeral(s: Seq<char>) -> bool {
    is_numeral(s) && i64::MIN <= numeral_val(s) <= i64::MAX
}

/// A sequence of digits denotes a nonnegative value.
proof fn lemma_digits_val_nonneg(s: Seq<char>)
    requires
        all_digits(s),
    ensures
        digits_val(s) >= 0,
    decreases s.len(),
{
    if s.len() > 0 {
        assert(all_digits(s.drop_last()));
        lemma_digits_val_nonneg(s.drop_last());
    }
}

/// Reading more digits never shrinks the value denoted so far.
proof fn lemma_digits_val_prefix_le(s: Seq<char>, i: int)
    requires
        all_digits(s),
        0 <= i <= s.len(),
    ensures
        digits_val(s.subrange(0, i)) <= digits_val(s),
    decreases s.len() - i,
{
    if i == s.len() {
        assert(s.subrange(0, i) =~= s);
    } else {
        lemma_digits_val_prefix_le(s, i + 1);
        let p = s.subrange(0, i);
        let q = s.subrange(0, i + 1);
        assert(q.drop_last() =~= p);
        assert(all_digits(p));
        lemma_digits_val_nonneg(p);
        assert(digits_val(q) == digits_val(p) * 10 + digit_val(s[i]));
    }
}

/// Parse a decimal numeral as an `i64`, accepting exactly what the standard
/// library's `i64` parsing accepts: an optional sign, at least one digit,
/// and a value within the type's range.
pub fn parse_i64(s: &str) -> (r: Option<i64>)
    ensures
        match r {
            Some(v) => is_i64_numeral(s@) && v as int == numeral_val(s@),
            None => !is_i64_numeral(s@),
        },
{
    let n: usize = s.unicode_len();
    if n == 0 {
        return None;
    }
    let c0 = s.get_char(0);
    let neg: bool = c0 == '-';
    let start: usize = if c0 == '-' || c0 == '+' {
        1
    } else {
        0
    };
    if start == n {
        return None;
    }
    let ghost body = numeral_body(s@);
    proof {
        if start == 1 {
            assert(body =~= s@.subrange(1, n as int));
        } else {
            assert(body =~= s@.subrange(0, n as int));
            assert(s@.subrange(0, n as int) =~= s@);
        }
    }
    let cap: u64 = if neg {
        9223372036854775808
    } else {
        9223372036854775807
    };
    let mut acc: u64 = 0;
    let mut i: usize = start;
    while i < n
        invariant
            n == s@.len(),
            0 < n,
            start <= i <= n,
            start < n,
            start == 0 || start == 1,
            (start == 1) <==> (s@[0] == '+' || s@[0] == '-'),
            neg <==> s@[0] == '-',
            body == numeral_body(s@),
            body =~= s@.subrange(start as int, n as int),
            cap == if neg { 9223372036854775808u64 } else { 9223372036854775807u64 },
            all_digits(s@.subrange(start as int, i as int)),
            acc as int == digits_val(s@.subrange(start as int, i as int)),
            acc <= cap,
        decreases n - i,
    {
        let c = s.get_char(i);
        let cu: u32 = c as u32;
        if cu < 48 || cu > 57 {
            proof {
                assert(body[i - start] == s@[i as int]);
                assert(!all_digits(body));
            }
            return None;
        }
        let d: u64 = (cu - 48) as u64;
        let ghost p = s@.subrange(start as int, i as int);
        let ghost q = s@.subrange(start as int, i + 1);
        proof {
            assert(q.drop_last() =~= p);
            assert(q.last() == s@[i as int]);
            assert(digits_val(q) == acc * 10 + d);
        }
        let mut overflow = false;
        let mut v: u64 = 0;
        match acc.checked_mul(10) {
            Some(m) => match m.checked_add(d) {
                Some(w) => {
                    v = w;
                },
                None => {
                    overflow = true;
                },
            },
            None => {
                overflow = true;
            },
        }
        if overflow || v > cap {
            proof {
                assert(digits_val(q) > cap);
                if all_digits(body) {
                    assert(q =~= body.subrange(0, i + 1 - start));
                    lemma_digits_val_prefix_le(body, i + 1 - start);
                    assert(digits_val(body) > cap);
                    if neg {
                        assert(numeral_val(s@) == -1 * digits_val(body));
                        assert(numeral_val(s@) < i64::MIN);
                    } else {
                        assert(numeral_val(s@) == digits_val(body));
                        assert(numeral_val(s@) > i64::MAX);
                    }
                }
            }
            return None;
        }
        acc = v;
        proof {
            assert(all_digits(q));
        }
        i = i + 1;
    }
    proof {
        assert(s@.subrange(start as int, n as int) == body);
        assert(acc as int == digits_val(body));
        assert(is_numeral(s@));
    }
    if neg {
        if acc == 9223372036854775808 {
            Some(i64::MIN)
        } else {
            Some(-(acc as i64))
        }
    } else {
        Some(acc as i64)
    }
}

/// The decimal digits of a nonnegative integer, without sign, most
/// significant first.
pub open spec fn dec_digits(n: int) -> Seq<char>
    decreases n,
{
    if n < 10 {
        seq![digit_char(n)]
    } else {
        dec_digits(n / 10).push(digit_char(n % 10))
    }
}

/// The digit character for a value below ten.
pub open spec fn digit_char(n: int) -> char {
    ((48 + n) as u8) as char
}

/// The decimal rendering of an integer: a minus sign when negative, then the
/// digits of its magnitude with no leading zero.
pub open spec fn dec_of(v: int) -> Seq<char> {
    if v < 0 {
        seq!['-'] + dec_digits(-v)
    } else {
        dec_digits(v)
    }
}

/// One digit as a character.
fn digit_char_exec(n: u64) -> (c: char)
    requires
        n < 10,
    ensures
        c == digit_char(n as int),
{
    (48 + n as u8) as char
}

/// Render an `i64` in decimal, as the standard library's formatting would.
pub fn render_i64(v: i64) -> (r: String)
    ensures
        r@ == dec_of(v as int),
{
    let neg: bool = v < 0;
    let mag: u64 = if v >= 0 {
        v as u64
    } else {
        (-(v + 1)) as u64 + 1
    };
    let mut digs: Vec<char> = Vec::new();
    let mut m: u64 = mag;
    while m >= 10
        invariant
            dec_digits(mag as int) =~= dec_digits(m as int) + digs@.reverse(),
        decreases m,
    {
        let d: u64 = m % 10;
        let ghost old_digs = digs@;
        digs.push(digit_char_exec(d));
        m = m / 10;
        proof {
            assert(digs@.reverse() =~= seq![digit_char(d as int)] + old_digs.reverse());
            assert(dec_digits(mag as int) =~= dec_digits(m as int) + digs@.reverse());
        }
    }
    let ghost old_digs = digs@;
    digs.push(digit_char_exec(m));
    proof {
        assert(digs@.reverse() =~= seq![digit_char(m as int)] + old_digs.reverse());
        assert(dec_digits(m as int) =~= seq![digit_char(m as int)]);
        assert(dec_digits(mag as int) =~= digs@.reverse());
    }
    let mut out = String::new();
    if neg {
        push_char(&mut out, '-');
    }
    let ghost sign: Seq<char> = if neg { seq!['-'] } else { Seq::empty() };
    proof {
        assert(out@ =~= sign);
    }
    let k: usize = digs.len();
    let mut j: usize = 0;
    while j < k
        invariant
            k == digs@.len(),
            j <= k,
            sign == if neg { seq!['-'] } else { Seq::<char>::empty() },
            out@ == sign + digs@.reverse().subrange(0, j as int),
        decreases k - j,
    {
        let c = digs[k - 1 - j];
        push_char(&mut out, c);
        proof {
            assert(digs@.reverse()[j as int] == digs@[k - 1 - j]);
            assert(digs@.reverse().subrange(0, j + 1).drop_last() =~= digs@.reverse().subrange(
                0,
                j as int,
            ));
            assert(out@ =~= sign + digs@.reverse().subrange(0, j + 1));
        }
        j = j + 1;
    }
    proof {
        assert(digs@.reverse().subrange(0, k as int) =~= digs@.reverse());
        assert(dec_of(v as int) =~= sign + dec_digits(mag as int));
    }
    out
}

} // verus!
