//! Text codecs the checker needs: decimal and hexadecimal renderings of
//! block heights, their parsers, and JSON string escaping.

use vstd::prelude::*;
use vstd::string::StrSliceExecFns;
use vstd::string::StringExecFns;

verus! {

/// The decimal digit character for `d` (`d < 10`).
pub open spec fn dec_char(d: nat) -> char {
    if d == 0 {
        '0'
    } else if d == 1 {
        '1'
    } else if d == 2 {
        '2'
    } else if d == 3 {
        '3'
    } else if d == 4 {
        '4'
    } else if d == 5 {
        '5'
    } else if d == 6 {
        '6'
    } else if d == 7 {
        '7'
    } else if d == 8 {
        '8'
    } else {
        '9'
    }
}

/// The lowercase hexadecimal digit character for `d` (`d < 16`).
pub open spec fn hex_char(d: nat) -> char {
    if d < 10 {
        dec_char(d)
    } else if d == 10 {
        'a'
    } else if d == 11 {
        'b'
    } else if d == 12 {
        'c'
    } else if d == 13 {
        'd'
    } else if d == 14 {
        'e'
    } else {
        'f'
    }
}

/// The decimal rendering of `n`, without sign or leading zeros.
pub open spec fn spec_dec(n: nat) -> Seq<char>
    decreases n,
{
    if n < 10 {
        seq![dec_char(n)]
    } else {
        spec_dec(n / 10).push(dec_char(n % 10))
    }
}

/// The lowercase hexadecimal rendering of `n`, without prefix or leading zeros.
pub open spec fn spec_hex(n: nat) -> Seq<char>
    decreases n,
{
    if n < 16 {
        seq![hex_char(n)]
    } else {
        spec_hex(n / 16).push(hex_char(n % 16))
    }
}

/// The value of `c` as a decimal digit; 10 if it is none.
pub open spec fn dec_val(c: char) -> nat {
    if 48 <= (c as u32) <= 57 {
        (c as u32 - 48) as nat
    } else {
        10
    }
}

/// The value of `c` as a hexadecimal digit, either case; 16 if it is none.
pub open spec fn hex_val(c: char) -> nat {
    if 48 <= (c as u32) <= 57 {
        (c as u32 - 48) as nat
    } else if 97 <= (c as u32) <= 102 {
        (c as u32 - 87) as nat
    } else if 65 <= (c as u32) <= 70 {
        (c as u32 - 55) as nat
    } else {
        16
    }
}

pub open spec fn is_dec_digit(c: char) -> bool {
    dec_val(c) < 10
}

pub open spec fn is_hex_digit(c: char) -> bool {
    hex_val(c) < 16
}

/// The number a sequence of decimal digits denotes.
pub open spec fn dec_value(s: Seq<char>) -> nat
    decreases s.len(),
{
    if s.len() == 0 {
        0
    } else {
        dec_value(s.drop_last()) * 10 + dec_val(s.last())
    }
}

/// The number a sequence of hexadecimal digits denotes.
pub open spec fn hex_value(s: Seq<char>) -> nat
    decreases s.len(),
{
    if s.len() == 0 {
        0
    } else {
        hex_value(s.drop_last()) * 16 + hex_val(s.last())
    }
}

pub open spec fn all_dec_digits(s: Seq<char>) -> bool {
    s.len() > 0 && (forall|i: int| 0 <= i < s.len() ==> is_dec_digit(#[trigger] s[i]))
}

pub open spec fn all_hex_digits(s: Seq<char>) -> bool {
    s.len() > 0 && (forall|i: int| 0 <= i < s.len() ==> is_hex_digit(#[trigger] s[i]))
}

/// What parsing a decimal `u64` returns: the denoted value, for a nonempty
/// all-digit string whose value fits; `None` otherwise.
pub open spec fn spec_parse_dec_u64(s: Seq<char>) -> Option<u64> {
    if all_dec_digits(s) && dec_value(s) <= u64::MAX {
        Some(dec_value(s) as u64)
    } else {
        None
    }
}

/// What parsing a hexadecimal `u64` returns.
pub open spec fn spec_parse_hex_u64(s: Seq<char>) -> Option<u64> {
    if all_hex_digits(s) && hex_value(s) <= u64::MAX {
        Some(hex_value(s) as u64)
    } else {
        None
    }
}

/// `s` without one leading `0x`, if it has one.
pub open spec fn strip_hex_prefix(s: Seq<char>) -> Seq<char> {
    if s.len() >= 2 && s[0] == '0' && s[1] == 'x' {
        s.subrange(2, s.len() as int)
    } else {
        s
    }
}

fn dec_char_of(d: u64) -> (c: &'static str)
    requires
        d < 10,
    ensures
        c@ == seq![dec_char(d as nat)],
{
    proof {
        reveal_strlit("0");
        reveal_strlit("1");
        reveal_strlit("2");
        reveal_strlit("3");
        reveal_strlit("4");
        reveal_strlit("5");
        reveal_strlit("6");
        reveal_strlit("7");
        reveal_strlit("8");
        reveal_strlit("9");
    }
    let c = if d == 0 {
        "0"
    } else if d == 1 {
        "1"
    } else if d == 2 {
        "2"
    } else if d == 3 {
        "3"
    } else if d == 4 {
        "4"
    } else if d == 5 {
        "5"
    } else if d == 6 {
        "6"
    } else if d == 7 {
        "7"
    } else if d == 8 {
        "8"
    } else {
        "9"
    };
    proof {
        assert(c@ =~= seq![dec_char(d as nat)]);
    }
    c
}

fn hex_char_of(d: u64) -> (c: &'static str)
    requires
        d < 16,
    ensures
        c@ == seq![hex_char(d as nat)],
{
    proof {
        reveal_strlit("a");
        reveal_strlit("b");
        reveal_strlit("c");
        reveal_strlit("d");
        reveal_strlit("e");
        reveal_strlit("f");
    }
    let c = if d < 10 {
        return dec_char_of(d);
    } else if d == 10 {
        "a"
    } else if d == 11 {
        "b"
    } else if d == 12 {
        "c"
    } else if d == 13 {
        "d"
    } else if d == 14 {
        "e"
    } else {
        "f"
    };
    proof {
        assert(c@ =~= seq![hex_char(d as nat)]);
    }
    c
}

/// Renders `n` in decimal, as `u64::to_string` would.
pub fn u64_to_dec(n: u64) -> (s: String)
    ensures
        s@ == spec_dec(n as nat),
    decreases n,
{
    if n < 10 {
        dec_char_of(n).to_owned()
    } else {
        let mut s = u64_to_dec(n / 10);
        s.append(dec_char_of(n % 10));
        proof {
            assert(s@ =~= spec_dec((n / 10) as nat).push(dec_char((n % 10) as nat)));
        }
        s
    }
}

/// Renders `n` in lowercase hexadecimal, without a prefix.
pub fn u64_to_hex(n: u64) -> (s: String)
    ensures
        s@ == spec_hex(n as nat),
    decreases n,
{
    if n < 16 {
        hex_char_of(n).to_owned()
    } else {
        let mut s = u64_to_hex(n / 16);
        s.append(hex_char_of(n % 16));
        proof {
            assert(s@ =~= spec_hex((n / 16) as nat).push(hex_char((n % 16) as nat)));
        }
        s
    }
}

fn dec_val_of(c: char) -> (v: u64)
    ensures
        v == dec_val(c),
{
    let u = c as u32;
    if 48 <= u && u <= 57 {
        (u - 48) as u64
    } else {
        10
    }
}

fn hex_val_of(c: char) -> (v: u64)
    ensures
        v == hex_val(c),
{
    let u = c as u32;
    if 48 <= u && u <= 57 {
        (u - 48) as u64
    } else if 97 <= u && u <= 102 {
        (u - 87) as u64
    } else if 65 <= u && u <= 70 {
        (u - 55) as u64
    } else {
        16
    }
}

/// A digit string denotes at least what any of its prefixes denotes.
proof fn lemma_dec_value_prefix_le(s: Seq<char>, j: int)
    requires
        0 <= j <= s.len(),
    ensures
        dec_value(s.subrange(0, j)) <= dec_value(s),
    decreases s.len(),
{
    if j == s.len() {
        assert(s.subrange(0, j) =~= s);
    } else {
        let t = s.drop_last();
        lemma_dec_value_prefix_le(t, j);
        assert(s.subrange(0, j) =~= t.subrange(0, j));
    }
}

proof fn lemma_hex_value_prefix_le(s: Seq<char>, j: int)
    requires
        0 <= j <= s.len(),
    ensures
        hex_value(s.subrange(0, j)) <= hex_value(s),
    decreases s.len(),
{
    if j == s.len() {
        assert(s.subrange(0, j) =~= s);
    } else {
        let t = s.drop_last();
        lemma_hex_value_prefix_le(t, j);
        assert(s.subrange(0, j) =~= t.subrange(0, j));
    }
}

/// Parses a nonempty string of decimal digits into a `u64`.
pub fn parse_dec_u64(s: &str) -> (r: Option<u64>)
    ensures
        r == spec_parse_dec_u64(s@),
{
    let len: usize = s.unicode_len();
    if len == 0 {
        return None;
    }
    let mut acc: u64 = 0;
    let mut i: usize = 0;
    while i < len
        invariant
            0 < len == s@.len(),
            0 <= i <= len,
            forall|j: int| 0 <= j < i ==> is_dec_digit(#[trigger] s@[j]),
            acc == dec_value(s@.subrange(0, i as int)),
        decreases len - i,
    {
        let c = s.get_char(i);
        let v = dec_val_of(c);
        if v >= 10 {
            return None;
        }
        proof {
            assert(s@.subrange(0, i + 1 as int).drop_last() =~= s@.subrange(0, i as int));
        }
        let m = acc.checked_mul(10);
        let next = match m {
            Some(x) => x.checked_add(v),
            None => None,
        };
        match next {
            Some(a) => {
                acc = a;
            },
            None => {
                proof {
                    lemma_dec_value_prefix_le(s@, i + 1 as int);
                }
                return None;
            },
        }
        i = i + 1;
    }
    proof {
        assert(s@.subrange(0, len as int) =~= s@);
    }
    Some(acc)
}

/// Parses a nonempty string of hexadecimal digits (either case) into a `u64`.
pub fn parse_hex_u64(s: &str) -> (r: Option<u64>)
    ensures
        r == spec_parse_hex_u64(s@),
{
    let len: usize = s.unicode_len();
    if len == 0 {
        return None;
    }
    let mut acc: u64 = 0;
    let mut i: usize = 0;
    while i < len
        invariant
            0 < len == s@.len(),
            0 <= i <= len,
            forall|j: int| 0 <= j < i ==> is_hex_digit(#[trigger] s@[j]),
            acc == hex_value(s@.subrange(0, i as int)),
        decreases len - i,
    {
        let c = s.get_char(i);
        let v = hex_val_of(c);
        if v >= 16 {
            return None;
        }
        proof {
            assert(s@.subrange(0, i + 1 as int).drop_last() =~= s@.subrange(0, i as int));
        }
        let m = acc.checked_mul(16);
        let next = match m {
            Some(x) => x.checked_add(v),
            None => None,
        };
        match next {
            Some(a) => {
                acc = a;
            },
            None => {
                proof {
                    lemma_hex_value_prefix_le(s@, i + 1 as int);
                }
                return None;
            },
        }
        i = i + 1;
    }
    proof {
        assert(s@.subrange(0, len as int) =~= s@);
    }
    Some(acc)
}

/// Parses an Ethereum quantity: hexadecimal digits after one optional `0x`.
pub fn parse_eth_quantity(s: &str) -> (r: Option<u64>)
    ensures
        r == spec_parse_hex_u64(strip_hex_prefix(s@)),
{
    let len: usize = s.unicode_len();
    if len >= 2 && s.get_char(0) == '0' && s.get_char(1) == 'x' {
        let rest = s.substring_char(2, len);
        parse_hex_u64(rest)
    } else {
        parse_hex_u64(s)
    }
}

/// Rendering a number in decimal and parsing the digits back is the identity.
pub proof fn lemma_dec_round_trip(n: u64)
    ensures
        spec_parse_dec_u64(spec_dec(n as nat)) == Some(n),
{
    lemma_dec_render_value(n as nat);
}

proof fn lemma_dec_render_value(n: nat)
    ensures
        all_dec_digits(spec_dec(n)),
        dec_value(spec_dec(n)) == n,
    decreases n,
{
    if n < 10 {
        assert(dec_val(dec_char(n)) == n);
        assert(spec_dec(n).drop_last() =~= Seq::<char>::empty());
        assert(dec_value(spec_dec(n)) == dec_value(Seq::<char>::empty()) * 10 + dec_val(
            dec_char(n),
        ));
    } else {
        lemma_dec_render_value(n / 10);
        let a = spec_dec(n / 10);
        let c = dec_char(n % 10);
        assert(a.push(c).drop_last() =~= a);
        assert(a.push(c).last() == c);
        assert(dec_val(c) == n % 10);
        assert(dec_value(a.push(c)) == dec_value(a) * 10 + dec_val(c));
        assert(n == (n / 10) * 10 + (n % 10)) by (nonlinear_arith);
        assert(forall|i: int| 0 <= i < a.push(c).len() ==> is_dec_digit(#[trigger] a.push(c)[i]));
    }
}

/// Rendering a number in hexadecimal and parsing the digits back is the identity.
pub proof fn lemma_hex_round_trip(n: u64)
    ensures
        spec_parse_hex_u64(spec_hex(n as nat)) == Some(n),
{
    lemma_hex_render_value(n as nat);
}

proof fn lemma_hex_render_value(n: nat)
    ensures
        all_hex_digits(spec_hex(n)),
        hex_value(spec_hex(n)) == n,
    decreases n,
{
    if n < 16 {
        assert(hex_val(hex_char(n)) == n);
        assert(spec_hex(n).drop_last() =~= Seq::<char>::empty());
        assert(hex_value(spec_hex(n)) == hex_value(Seq::<char>::empty()) * 16 + hex_val(
            hex_char(n),
        ));
    } else {
        lemma_hex_render_value(n / 16);
        let a = spec_hex(n / 16);
        let c = hex_char(n % 16);
        assert(a.push(c).drop_last() =~= a);
        assert(a.push(c).last() == c);
        assert(hex_val(c) == n % 16);
        assert(hex_value(a.push(c)) == hex_value(a) * 16 + hex_val(c));
        assert(n == (n / 16) * 16 + (n % 16)) by (nonlinear_arith);
        assert(forall|i: int| 0 <= i < a.push(c).len() ==> is_hex_digit(#[trigger] a.push(c)[i]));
    }
}

/// A `0x`-prefixed hexadecimal rendering parses back to the number it encodes:
/// the round trip an Ethereum block-height parameter makes.
pub proof fn lemma_eth_quantity_round_trip(n: u64)
    ensures
        spec_parse_hex_u64(strip_hex_prefix("0x"@ + spec_hex(n as nat))) == Some(n),
{
    reveal_strlit("0x");
    lemma_hex_render_value(n as nat);
    let s = "0x"@ + spec_hex(n as nat);
    assert(s[0] == '0' && s[1] == 'x');
    assert(s.subrange(2, s.len() as int) =~= spec_hex(n as nat));
}

/// Whether two strings hold the same characters.
pub fn str_eq(a: &str, b: &str) -> (r: bool)
    ensures
        r == (a@ == b@),
{
    let al: usize = a.unicode_len();
    let bl: usize = b.unicode_len();
    if al != bl {
        return false;
    }
    let mut i: usize = 0;
    while i < al
        invariant
            al == a@.len(),
            bl == b@.len(),
            al == bl,
            0 <= i <= al,
            forall|j: int| 0 <= j < i ==> a@[j] == b@[j],
        decreases al - i,
    {
        if a.get_char(i) != b.get_char(i) {
            return false;
        }
        i = i + 1;
    }
    proof {
        assert(a@ =~= b@);
    }
    true
}

/// How one character is written inside a JSON string literal.
pub open spec fn escape_char(c: char) -> Seq<char> {
    if c == '"' {
        seq!['\\', '"']
    } else if c == '\\' {
        seq!['\\', '\\']
    } else if (c as u32) < 32 {
        seq!['\\', 'u', '0', '0', hex_char(((c as u32) / 16) as nat), hex_char(((c as u32) % 16) as nat)]
    } else {
        seq![c]
    }
}

/// How a whole string is written inside a JSON string literal.
pub open spec fn json_escaped(s: Seq<char>) -> Seq<char>
    decreases s.len(),
{
    if s.len() == 0 {
        Seq::empty()
    } else {
        json_escaped(s.drop_last()) + escape_char(s.last())
    }
}

/// Escapes `s` for use inside a JSON string literal: quote, backslash and
/// control characters are escaped, everything else passes through.
pub fn json_escape(s: &str) -> (r: String)
    ensures
        r@ == json_escaped(s@),
{
    let len: usize = s.unicode_len();
    let mut r = String::new();
    let mut i: usize = 0;
    while i < len
        invariant
            len == s@.len(),
            0 <= i <= len,
            r@ == json_escaped(s@.subrange(0, i as int)),
        decreases len - i,
    {
        let c = s.get_char(i);
        let u = c as u32;
        proof {
            assert(s@.subrange(0, i + 1 as int).drop_last() =~= s@.subrange(0, i as int));
            assert(s@.subrange(0, i + 1 as int).last() == s@[i as int]);
        }
        if c == '"' {
            proof {
                reveal_strlit("\\\"");
            }
            r.append("\\\"");
            proof {
                assert("\\\""@ =~= escape_char(c));
            }
        } else if c == '\\' {
            proof {
                reveal_strlit("\\\\");
            }
            r.append("\\\\");
            proof {
                assert("\\\\"@ =~= escape_char(c));
            }
        } else if u < 32 {
            proof {
                reveal_strlit("\\u00");
            }
            r.append("\\u00");
            r.append(hex_char_of((u / 16) as u64));
            r.append(hex_char_of((u % 16) as u64));
            proof {
                assert("\\u00"@ + seq![hex_char((u / 16) as nat)] + seq![hex_char((u % 16) as nat)]
                    =~= escape_char(c));
            }
        } else {
            let piece = s.substring_char(i, i + 1);
            r.append(piece);
            proof {
                assert(piece@ =~= escape_char(c));
            }
        }
        i = i + 1;
    }
    proof {
        assert(s@.subrange(0, len as int) =~= s@);
    }
    r
}

} // verus!
