//! Decimal integer text: rendering and parsing, with a proved round trip.
//!
//! Integer fields of the upstream documents arrive as raw number lexemes;
//! these functions move between such lexemes and machine integers.

use vstd::prelude::*;

verus! {

pub open spec fn is_digit(c: char) -> bool {
    '0' <= c && c <= '9'
}

pub open spec fn digit_val(c: char) -> int {
    c as int - '0' as int
}

pub open spec fn all_digits(s: Seq<char>) -> bool {
    forall|i: int| 0 <= i < s.len() ==> is_digit(#[trigger] s[i])
}

/// The value of a sequence of decimal digits, most significant first.
pub open spec fn digits_val(s: Seq<char>) -> int
    decreases s.len(),
{
    if s.len() == 0 {
        0
    } else {
        digits_val(s.drop_last()) * 10 + digit_val(s.last())
    }
}

/// The integer denoted by `s`: an optional minus sign followed by one or
/// more decimal digits. Anything else (fractions, exponents, empty text)
/// denotes nothing.
pub open spec fn parse_int(s: Seq<char>) -> Option<int> {
    if s.len() > 0 && s[0] == '-' {
        if s.len() > 1 && all_digits(s.skip(1)) {
            Some(-digits_val(s.skip(1)))
        } else {
            None
        }
    } else if s.len() > 0 && all_digits(s) {
        Some(digits_val(s))
    } else {
        None
    }
}

/// The canonical digit for a value below ten.
pub open spec fn dec_digit_char(d: int) -> char {
    if d == 0 { '0' }
    else if d == 1 { '1' }
    else if d == 2 { '2' }
    else if d == 3 { '3' }
    else if d == 4 { '4' }
    else if d == 5 { '5' }
    else if d == 6 { '6' }
    else if d == 7 { '7' }
    else if d == 8 { '8' }
    else { '9' }
}

/// Canonical decimal text of a natural number.
pub open spec fn u_text(n: nat) -> Seq<char>
    decreases n,
{
    if n < 10 {
        seq![dec_digit_char(n as int)]
    } else {
        u_text(n / 10) + seq![dec_digit_char((n % 10) as int)]
    }
}

/// Canonical decimal text of an integer.
pub open spec fn int_text(n: int) -> Seq<char> {
    if n < 0 {
        seq!['-'] + u_text((-n) as nat)
    } else {
        u_text(n as nat)
    }
}

proof fn lemma_u_text_digits(n: nat)
    ensures
        u_text(n).len() >= 1,
        all_digits(u_text(n)),
    decreases n,
{
    if n >= 10 {
        lemma_u_text_digits(n / 10);
    }
}

proof fn lemma_digits_val_nonneg(s: Seq<char>)
    requires
        all_digits(s),
    ensures
        digits_val(s) >= 0,
    decreases s.len(),
{
    if s.len() > 0 {
        assert(all_digits(s.drop_last()));
        lemma_digits_val_nonneg(s.drop_last());
    }
}

proof fn lemma_digits_val_u_text(n: nat)
    ensures
        digits_val(u_text(n)) == n,
    decreases n,
{
    if n < 10 {
        let s = u_text(n);
        assert(s =~= seq![dec_digit_char(n as int)]);
        assert(s.drop_last() =~= Seq::<char>::empty());
        assert(s.last() == dec_digit_char(n as int));
        assert(digit_val(dec_digit_char(n as int)) == n);
        assert(digits_val(s) == digits_val(Seq::<char>::empty()) * 10 + n);
    } else {
        lemma_digits_val_u_text(n / 10);
        let s = u_text(n);
        assert(s.drop_last() =~= u_text(n / 10));
        assert(s.last() == dec_digit_char((n % 10) as int));
        assert(n / 10 * 10 + n % 10 == n) by {
            vstd::arithmetic::div_mod::lemma_fundamental_div_mod(n as int, 10);
        }
    }
}

/// Appending further digits never shrinks the value.
proof fn lemma_digits_val_prefix_le(s: Seq<char>, i: int)
    requires
        all_digits(s),
        0 <= i <= s.len(),
    ensures
        digits_val(s.take(i)) <= digits_val(s),
    decreases s.len() - i,
{
    if i < s.len() {
        lemma_digits_val_prefix_le(s, i + 1);
        let t = s.take(i + 1);
        assert(t.drop_last() =~= s.take(i));
        assert(all_digits(s.take(i)));
        lemma_digits_val_nonneg(s.take(i));
        assert(digits_val(s.take(i)) * 10 + digit_val(t.last()) >= digits_val(s.take(i)));
    } else {
        assert(s.take(i) =~= s);
    }
}

/// Parsing the canonical text of an integer gives the integer back.
pub proof fn lemma_parse_int_text(n: int)
    ensures
        parse_int(int_text(n)) == Some(n),
{
    if n < 0 {
        let s = int_text(n);
        lemma_u_text_digits((-n) as nat);
        assert(s.skip(1) =~= u_text((-n) as nat));
        lemma_digits_val_u_text((-n) as nat);
    } else {
        let s = u_text(n as nat);
        lemma_u_text_digits(n as nat);
        assert(is_digit(s[0]));
        lemma_digits_val_u_text(n as nat);
    }
}

/// One digit as text.
fn digit_str(d: u64) -> (r: &'static str)
    requires
        d < 10,
    ensures
        r@ =~= seq![dec_digit_char(d as int)],
{
    proof {
        reveal_strlit("0");
        reveal_strlit("1");
        reveal_strlit("2");
        reveal_strlit("3");
        reveal_strlit("4");
        reveal_strlit("5");
        reveal_strlit("6");
        reveal_strlit("7");
        reveal_strlit("8");
        reveal_strlit("9");
    }
    match d {
        0 => "0",
        1 => "1",
        2 => "2",
        3 => "3",
        4 => "4",
        5 => "5",
        6 => "6",
        7 => "7",
        8 => "8",
        _ => "9",
    }
}

/// Appends the canonical decimal text of `n`.
pub fn push_u64_text(s: &mut String, n: u64)
    ensures
        final(s)@ == old(s)@ + u_text(n as nat),
    decreases n,
{
    if n >= 10 {
        push_u64_text(s, n / 10);
        s.append(digit_str(n % 10));
        proof {
            assert(s@ =~= old(s)@ + u_text(n as nat));
        }
    } else {
        s.append(digit_str(n));
        proof {
            assert(s@ =~= old(s)@ + u_text(n as nat));
        }
    }
}

/// The canonical decimal text of an unsigned number.
pub fn u64_text(n: u64) -> (s: String)
    ensures
        s@ == u_text(n as nat),
{
    let mut s = String::new();
    push_u64_text(&mut s, n);
    proof {
        assert(s@ =~= u_text(n as nat));
    }
    s
}

/// The canonical decimal text of a signed number.
pub fn i32_text(v: i32) -> (s: String)
    ensures
        s@ == int_text(v as int),
{
    let mut s = String::new();
    if v < 0 {
        s.append("-");
        let m: u64 = (-(v as i64)) as u64;
        push_u64_text(&mut s, m);
        proof {
            reveal_strlit("-");
            assert(s@ =~= seq!['-'] + u_text((-(v as int)) as nat));
        }
    } else {
        push_u64_text(&mut s, v as u64);
        proof {
            assert(s@ =~= u_text(v as nat));
        }
    }
    s
}

/// Reads a decimal integer if it denotes a value in `i32` range.
pub fn parse_i32(s: &str) -> (r: Option<i32>)
    ensures
        match r {
            Some(v) => parse_int(s@) == Some(v as int),
            None => !(parse_int(s@) matches Some(v) && i32::MIN <= v <= i32::MAX),
        },
{
    let n = s.unicode_len();
    if n == 0 {
        return None;
    }
    let neg = s.get_char(0) == '-';
    let start: usize = if neg { 1 } else { 0 };
    if start == n {
        return None;
    }
    let limit: i64 = if neg { 2147483648 } else { 2147483647 };
    let ghost body = if neg { s@.skip(1) } else { s@ };
    proof {
        assert(body =~= s@.subrange(start as int, n as int));
    }
    let mut acc: i64 = 0;
    for i in start..n
        invariant
            n == s@.len(),
            start <= i <= n,
            start == if neg { 1int } else { 0int },
            neg ==> s@[0] == '-',
            !neg ==> s@[0] != '-',
            body == s@.subrange(start as int, n as int),
            limit == if neg { 2147483648i64 } else { 2147483647i64 },
            all_digits(body.take(i - start)),
            0 <= acc <= limit,
            acc == digits_val(body.take(i - start)),
    {
        let c = s.get_char(i);
        if !('0' <= c && c <= '9') {
            proof {
                assert(body[i - start] == c);
                assert(!all_digits(body));
            }
            return None;
        }
        let d: i64 = (c as u32) as i64 - 48;
        proof {
            assert(d == digit_val(c));
            assert(body.take(i + 1 - start).drop_last() =~= body.take(i - start));
            assert(body.take(i + 1 - start).last() == c);
        }
        acc = acc * 10 + d;
        if acc > limit {
            proof {
                let t = i + 1 - start;
                assert(acc == digits_val(body.take(t)));
                if parse_int(s@) is Some {
                    assert(all_digits(body));
                    lemma_digits_val_prefix_le(body, t);
                    assert(digits_val(body) >= acc);
                    if neg {
                        assert(parse_int(s@) == Some(-digits_val(body)));
                    } else {
                        assert(body =~= s@);
                        assert(parse_int(s@) == Some(digits_val(body)));
                    }
                }
            }
            return None;
        }
    }
    proof {
        assert(body.take(n - start) =~= body);
        assert(acc == digits_val(body));
    }
    if neg {
        if acc == 2147483648 {
            Some(i32::MIN)
        } else {
            Some(-(acc as i32))
        }
    } else {
        Some(acc as i32)
    }
}

} // verus!
