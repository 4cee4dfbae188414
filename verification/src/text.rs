//! Text building blocks: removing a suffix from a name, and writing an
//! integer in decimal.

use crate::order::lemma_encoding_injective;
use vstd::prelude::*;
use vstd::utf8::*;

verus! {

/// `s` ends with `suffix`.
pub open spec fn ends_with(s: Seq<char>, suffix: Seq<char>) -> bool {
    suffix.len() <= s.len() && s.skip(s.len() - suffix.len()) == suffix
}

/// `name` without `suffix` at its end; `name` itself where the suffix is
/// empty or `name` does not end with it.
pub open spec fn strip_suffix(name: Seq<char>, suffix: Seq<char>) -> Seq<char> {
    if suffix.len() > 0 && ends_with(name, suffix) {
        name.take(name.len() - suffix.len())
    } else {
        name
    }
}

/// The encoding of two texts in a row is the two encodings in a row.
pub proof fn lemma_encode_concat(a: Seq<char>, b: Seq<char>)
    ensures
        encode_utf8(a + b) == encode_utf8(a) + encode_utf8(b),
    decreases a.len(),
{
    if a.len() == 0 {
        assert(a + b =~= b);
    } else {
        assert((a + b).drop_first() =~= a.drop_first() + b);
        lemma_encode_concat(a.drop_first(), b);
        assert(encode_utf8(a + b) =~= encode_utf8(a) + encode_utf8(b));
    }
}

/// A text ends with a suffix exactly when its encoding ends with the
/// suffix's encoding.
pub proof fn lemma_ends_with_bytes(s: Seq<char>, suffix: Seq<char>)
    ensures
        ends_with(s, suffix) <==> {
            let sb = encode_utf8(s);
            let xb = encode_utf8(suffix);
            xb.len() <= sb.len() && sb.skip(sb.len() - xb.len()) == xb
        },
        ends_with(s, suffix) ==> encode_utf8(s.take(s.len() - suffix.len())) == encode_utf8(
            s,
        ).take(encode_utf8(s).len() - encode_utf8(suffix).len()),
{
    let sb = encode_utf8(s);
    let xb = encode_utf8(suffix);
    if ends_with(s, suffix) {
        let head = s.take(s.len() - suffix.len());
        assert(s =~= head + suffix);
        lemma_encode_concat(head, suffix);
        assert(sb.skip(sb.len() - xb.len()) =~= xb);
        assert(sb.take(sb.len() - xb.len()) =~= encode_utf8(head));
    }
    if xb.len() <= sb.len() && sb.skip(sb.len() - xb.len()) == xb {
        let k = sb.len() - xb.len();
        encode_utf8_valid_utf8(s);
        encode_utf8_valid_utf8(suffix);
        encode_utf8_decode_utf8(s);
        encode_utf8_decode_utf8(suffix);
        if xb.len() == 0 {
            assert(suffix.len() == 0);
            assert(s.skip(s.len() - suffix.len()) =~= suffix);
        } else {
            is_char_boundary_start_end_of_seq(xb);
            is_char_boundary_iff_not_is_continuation_byte(xb, 0);
            assert(sb[k] == sb.skip(k)[0]);
            is_char_boundary_iff_not_is_continuation_byte(sb, k);
            decode_utf8_split(sb, k);
            valid_utf8_split(sb, k);
            assert(sb.subrange(k, sb.len() as int) =~= xb);
            let head = decode_utf8(sb.subrange(0, k));
            assert(s =~= head + suffix);
            assert(s.skip(s.len() - suffix.len()) =~= suffix);
        }
    }
}

/// A name that is a stem followed by the suffix is cut back to the stem.
pub proof fn lemma_strip_suffix_removes(stem: Seq<char>, suffix: Seq<char>)
    requires
        suffix.len() > 0,
    ensures
        strip_suffix(stem + suffix, suffix) == stem,
{
    let name = stem + suffix;
    assert(name.skip(name.len() - suffix.len()) =~= suffix);
    assert(name.take(name.len() - suffix.len()) =~= stem);
}

/// A name that does not end with the suffix stays as it is, and so does
/// every name where the suffix is empty.
pub proof fn lemma_strip_suffix_keeps(name: Seq<char>, suffix: Seq<char>)
    requires
        suffix.len() == 0 || !ends_with(name, suffix),
    ensures
        strip_suffix(name, suffix) == name,
{
}

/// Removing the suffix a second time changes nothing, unless what the
/// first removal left ends with the suffix again.
pub proof fn lemma_strip_suffix_idempotent(name: Seq<char>, suffix: Seq<char>)
    requires
        suffix.len() == 0 || !ends_with(strip_suffix(name, suffix), suffix),
    ensures
        strip_suffix(strip_suffix(name, suffix), suffix) == strip_suffix(name, suffix),
{
}

/// `name` without `suffix` at its end.
pub fn without_suffix(name: &str, suffix: &str) -> (r: String)
    ensures
        r@ == strip_suffix(name@, suffix@),
{
    let nb = name.as_bytes();
    let xb = suffix.as_bytes();
    proof {
        lemma_ends_with_bytes(name@, suffix@);
    }
    if xb.len() == 0 || xb.len() > nb.len() {
        return String::from_str(name);
    }
    let k: usize = nb.len() - xb.len();
    let mut i: usize = 0;
    while i < xb.len()
        invariant
            i <= xb@.len(),
            k + xb@.len() == nb@.len(),
            nb@.len() <= usize::MAX,
            nb@ == encode_utf8(name@),
            xb@ == encode_utf8(suffix@),
            forall|j: int| 0 <= j < i ==> nb@[k + j] == xb@[j],
        decreases xb@.len() - i,
    {
        if nb[k + i] != xb[i] {
            proof {
                lemma_ends_with_bytes(name@, suffix@);
            }
            return String::from_str(name);
        }
        i += 1;
    }
    proof {
        assert(nb@.skip(nb@.len() - xb@.len()) =~= xb@);
        encode_utf8_valid_utf8(name@);
        encode_utf8_valid_utf8(suffix@);
        is_char_boundary_iff_not_is_continuation_byte(xb@, 0);
        is_char_boundary_iff_not_is_continuation_byte(nb@, k as int);
    }
    let (head, _tail) = name.split_at(k);
    proof {
        lemma_encoding_injective(head@, name@.take(name@.len() - suffix@.len()));
    }
    String::from_str(head)
}

/// The character for one decimal digit.
pub open spec fn digit(d: int) -> char {
    if d == 0 {
        '0'
    } else if d == 1 {
        '1'
    } else if d == 2 {
        '2'
    } else if d == 3 {
        '3'
    } else if d == 4 {
        '4'
    } else if d == 5 {
        '5'
    } else if d == 6 {
        '6'
    } else if d == 7 {
        '7'
    } else if d == 8 {
        '8'
    } else {
        '9'
    }
}

/// A natural number in decimal, without leading zeros.
pub open spec fn decimal_nat(n: nat) -> Seq<char>
    decreases n,
{
    if n < 10 {
        seq![digit(n as int)]
    } else {
        decimal_nat(n / 10).push(digit((n % 10) as int))
    }
}

/// An integer in decimal, with `-` before a negative one.
pub open spec fn decimal(n: int) -> Seq<char> {
    if n < 0 {
        seq!['-'] + decimal_nat((-n) as nat)
    } else {
        decimal_nat(n as nat)
    }
}

/// The text of one decimal digit.
fn digit_str(d: u32) -> (r: &'static str)
    requires
        d < 10,
    ensures
        r@ == seq![digit(d as int)],
{
    proof {
        reveal_strlit("0");
        reveal_strlit("1");
        reveal_strlit("2");
        reveal_strlit("3");
        reveal_strlit("4");
        reveal_strlit("5");
        reveal_strlit("6");
        reveal_strlit("7");
        reveal_strlit("8");
        reveal_strlit("9");
    }
    let r = if d == 0 {
        "0"
    } else if d == 1 {
        "1"
    } else if d == 2 {
        "2"
    } else if d == 3 {
        "3"
    } else if d == 4 {
        "4"
    } else if d == 5 {
        "5"
    } else if d == 6 {
        "6"
    } else if d == 7 {
        "7"
    } else if d == 8 {
        "8"
    } else {
        "9"
    };
    r
}

/// Writes `n` in decimal at the end of `out`.
fn push_decimal_nat(out: &mut String, n: u32)
    ensures
        final(out)@ == old(out)@ + decimal_nat(n as nat),
    decreases n,
{
    if n >= 10 {
        push_decimal_nat(out, n / 10);
    }
    out.append(digit_str(n % 10));
}

/// Writes `n` in decimal at the end of `out`.
pub fn push_decimal(out: &mut String, n: i32)
    ensures
        final(out)@ == old(out)@ + decimal(n as int),
{
    if n < 0 {
        proof {
            reveal_strlit("-");
        }
        out.append("-");
        let wide: i64 = n as i64;
        let m: u32 = (0 - wide) as u32;
        push_decimal_nat(out, m);
    } else {
        let m: u32 = n as u32;
        push_decimal_nat(out, m);
    }
}

/// `n` in decimal.
pub fn to_decimal(n: i32) -> (r: String)
    ensures
        r@ == decimal(n as int),
{
    let mut r = String::new();
    push_decimal(&mut r, n);
    r
}

} // verus!
