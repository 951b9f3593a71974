//! Text form of the 16-byte identifier: hex with optional separators.
//!
//! The interface standard fixes no canonical string form; at the human
//! boundary an identifier is written as 32 hex digits, case-insensitive,
//! optionally broken up by dashes, braces, or spaces.

use vstd::prelude::*;

use crate::HostError;

verus! {

/// A character the hex form may use to break up the digits.
pub open spec fn is_id_separator(c: char) -> bool {
    c == '-' || c == '{' || c == '}' || c == ' '
}

/// The characters of `s` with every separator removed, order kept.
pub open spec fn strip_separators(s: Seq<char>) -> Seq<char>
    decreases s.len(),
{
    if s.len() == 0 {
        Seq::empty()
    } else {
        strip_separators(s.drop_last()) + if is_id_separator(s.last()) {
            Seq::<char>::empty()
        } else {
            seq![s.last()]
        }
    }
}

/// Whether `c` is a hex digit, either case.
pub open spec fn is_hex_digit(c: char) -> bool {
    (('0' as u32) <= (c as u32) && (c as u32) <= ('9' as u32)) || (('a' as u32) <= (c as u32) && (
    c as u32) <= ('f' as u32)) || (('A' as u32) <= (c as u32) && (c as u32) <= ('F' as u32))
}

/// Numeric value of a hex digit; meaningful only when `is_hex_digit(c)`.
pub open spec fn hex_digit_value(c: char) -> u8 {
    if ('0' as u32) <= (c as u32) && (c as u32) <= ('9' as u32) {
        ((c as u32) - ('0' as u32)) as u8
    } else if ('a' as u32) <= (c as u32) && (c as u32) <= ('f' as u32) {
        ((c as u32) - ('a' as u32) + 10) as u8
    } else {
        ((c as u32) - ('A' as u32) + 10) as u8
    }
}

/// Whether every character of `s` is a hex digit.
pub open spec fn all_hex_digits(s: Seq<char>) -> bool {
    forall|i: int| 0 <= i < s.len() ==> is_hex_digit(s[i])
}

/// The bytes named by an even-length run of hex digits, two digits a byte,
/// high nibble first.
pub open spec fn bytes_of_hex(s: Seq<char>) -> Seq<u8> {
    Seq::new(
        s.len() / 2,
        |i: int| (hex_digit_value(s[2 * i]) * 16 + hex_digit_value(s[2 * i + 1])) as u8,
    )
}

/// Upper-case hex digit for a nibble value; meaningful only for `v < 16`.
pub open spec fn hex_char_upper(v: u8) -> char {
    if v == 0 {
        '0'
    } else if v == 1 {
        '1'
    } else if v == 2 {
        '2'
    } else if v == 3 {
        '3'
    } else if v == 4 {
        '4'
    } else if v == 5 {
        '5'
    } else if v == 6 {
        '6'
    } else if v == 7 {
        '7'
    } else if v == 8 {
        '8'
    } else if v == 9 {
        '9'
    } else if v == 10 {
        'A'
    } else if v == 11 {
        'B'
    } else if v == 12 {
        'C'
    } else if v == 13 {
        'D'
    } else if v == 14 {
        'E'
    } else {
        'F'
    }
}

/// Upper-case hex form of a byte run: two digits a byte, high nibble first.
pub open spec fn hex_chars_of(bytes: Seq<u8>) -> Seq<char> {
    Seq::new(
        bytes.len() * 2,
        |i: int|
            if i % 2 == 0 {
                hex_char_upper(bytes[i / 2] / 16)
            } else {
                hex_char_upper(bytes[i / 2] % 16)
            },
    )
}

/// Stripping separators from a text without separators changes nothing.
proof fn lemma_strip_no_separators(s: Seq<char>)
    requires
        forall|i: int| 0 <= i < s.len() ==> !is_id_separator(s[i]),
    ensures
        strip_separators(s) == s,
    decreases s.len(),
{
    if s.len() == 0 {
        assert(strip_separators(s) =~= s);
    } else {
        lemma_strip_no_separators(s.drop_last());
        assert(strip_separators(s) =~= s);
    }
}

/// Law: the hex form of a byte run has no separators, holds only hex digits,
/// is twice as long as the run, and reading its digits back as bytes yields
/// the original run.  For a 16-byte identifier this makes formatting and
/// parsing a round trip.
pub proof fn lemma_hex_round_trip(bytes: Seq<u8>)
    ensures
        strip_separators(hex_chars_of(bytes)) == hex_chars_of(bytes),
        all_hex_digits(hex_chars_of(bytes)),
        hex_chars_of(bytes).len() == bytes.len() * 2,
        bytes_of_hex(hex_chars_of(bytes)) == bytes,
{
    assert forall|v: u8| v < 16 implies is_hex_digit(#[trigger] hex_char_upper(v)) && !is_id_separator(
        hex_char_upper(v),
    ) && hex_digit_value(hex_char_upper(v)) == v by {}
    let h = hex_chars_of(bytes);
    assert forall|i: int| 0 <= i < h.len() implies is_hex_digit(h[i]) && !is_id_separator(
        #[trigger] h[i],
    ) by {
        if i % 2 == 0 {
            assert(h[i] == hex_char_upper(bytes[i / 2] / 16));
        } else {
            assert(h[i] == hex_char_upper(bytes[i / 2] % 16));
        }
    }
    lemma_strip_no_separators(h);
    assert forall|i: int| 0 <= i < bytes.len() implies #[trigger] bytes_of_hex(h)[i] == bytes[i] by {
        assert(h[2 * i] == hex_char_upper(bytes[i] / 16));
        assert(h[2 * i + 1] == hex_char_upper(bytes[i] % 16));
        assert(hex_digit_value(h[2 * i]) * 16 + hex_digit_value(h[2 * i + 1]) == bytes[i]);
    }
    assert(bytes_of_hex(h) =~= bytes);
}

/// The characters of `s` with every separator dropped, order kept.
fn strip_id_separators(s: &str) -> (r: Vec<char>)
    ensures
        r@ == strip_separators(s@),
{
    let n = s.unicode_len();
    let mut kept: Vec<char> = Vec::new();
    let mut i: usize = 0;
    while i < n
        invariant
            n == s@.len(),
            i <= n,
            kept@ == strip_separators(s@.take(i as int)),
        decreases n - i,
    {
        let c = s.get_char(i);
        proof {
            assert(s@.take(i as int + 1).drop_last() =~= s@.take(i as int));
            assert(s@.take(i as int + 1).last() == c);
        }
        if !(c == '-' || c == '{' || c == '}' || c == ' ') {
            kept.push(c);
        }
        proof {
            assert(strip_separators(s@.take(i as int + 1)) =~= kept@);
        }
        i += 1;
    }
    proof {
        assert(s@.take(n as int) =~= s@);
    }
    kept
}

/// Value of one hex digit, or `None` for any other character.
fn hex_digit_val(c: char) -> (r: Option<u8>)
    ensures
        r matches Some(v) ==> is_hex_digit(c) && v == hex_digit_value(c) && v < 16,
        r is None <==> !is_hex_digit(c),
{
    let u = c as u32;
    if '0' as u32 <= u && u <= '9' as u32 {
        Some((u - '0' as u32) as u8)
    } else if 'a' as u32 <= u && u <= 'f' as u32 {
        Some((u - 'a' as u32 + 10) as u8)
    } else if 'A' as u32 <= u && u <= 'F' as u32 {
        Some((u - 'A' as u32 + 10) as u8)
    } else {
        None
    }
}

/// Parses the hex text form of a 16-byte identifier.
///
/// Separators (dashes, braces, spaces) are stripped first; what remains must
/// be exactly 32 hex digits, either case.  A wrong digit count fails with
/// `IidLength` naming the observed count; a non-digit fails as a malformed
/// input.
pub fn parse_hex_16(s: &str) -> (r: Result<[u8; 16], HostError>)
    ensures
        r matches Ok(b) <==> strip_separators(s@).len() == 32 && all_hex_digits(
            strip_separators(s@),
        ),
        r matches Ok(b) ==> b@ == bytes_of_hex(strip_separators(s@)),
        strip_separators(s@).len() != 32 ==> (r matches Err(e) && e matches HostError::IidLength(n)
            && n == strip_separators(s@).len()),
        strip_separators(s@).len() == 32 && !all_hex_digits(strip_separators(s@)) ==> (r matches Err(
            e,
        ) && e matches HostError::InvalidBundle(m) && m@ == "bad hex"@),
{
    let t = strip_id_separators(s);
    if t.len() != 32 {
        return Err(HostError::IidLength(t.len()));
    }
    let mut out: [u8; 16] = [0u8; 16];
    let mut i: usize = 0;
    while i < 16
        invariant
            t@ == strip_separators(s@),
            t@.len() == 32,
            i <= 16,
            forall|k: int| 0 <= k < 2 * i ==> is_hex_digit(t@[k]),
            forall|k: int| 0 <= k < i ==> out@[k] == bytes_of_hex(t@)[k],
        decreases 16 - i,
    {
        let hi = hex_digit_val(t[2 * i]);
        let lo = hex_digit_val(t[2 * i + 1]);
        match (hi, lo) {
            (Some(h), Some(l)) => {
                out[i] = h * 16 + l;
            },
            _ => {
                return Err(HostError::InvalidBundle(String::from_str("bad hex")));
            },
        }
        i += 1;
    }
    proof {
        assert(out@ =~= bytes_of_hex(t@));
    }
    Ok(out)
}

/// Upper-case hex digit of a nibble.
fn hex_str_of(v: u8) -> (r: &'static str)
    requires
        v < 16,
    ensures
        r@ =~= seq![hex_char_upper(v)],
{
    proof {
        reveal_strlit("0");
        reveal_strlit("1");
        reveal_strlit("2");
        reveal_strlit("3");
        reveal_strlit("4");
        reveal_strlit("5");
        reveal_strlit("6");
        reveal_strlit("7");
        reveal_strlit("8");
        reveal_strlit("9");
        reveal_strlit("A");
        reveal_strlit("B");
        reveal_strlit("C");
        reveal_strlit("D");
        reveal_strlit("E");
        reveal_strlit("F");
    }
    if v == 0 {
        "0"
    } else if v == 1 {
        "1"
    } else if v == 2 {
        "2"
    } else if v == 3 {
        "3"
    } else if v == 4 {
        "4"
    } else if v == 5 {
        "5"
    } else if v == 6 {
        "6"
    } else if v == 7 {
        "7"
    } else if v == 8 {
        "8"
    } else if v == 9 {
        "9"
    } else if v == 10 {
        "A"
    } else if v == 11 {
        "B"
    } else if v == 12 {
        "C"
    } else if v == 13 {
        "D"
    } else if v == 14 {
        "E"
    } else {
        "F"
    }
}

/// Formats a 16-byte identifier as 32 upper-case hex digits, no separators.
pub fn fmt_cid_hex(cid: &[u8; 16]) -> (r: String)
    ensures
        r@ == hex_chars_of(cid@),
{
    let mut s = String::new();
    let mut i: usize = 0;
    while i < 16
        invariant
            i <= 16,
            s@ == hex_chars_of(cid@).take(2 * i as int),
        decreases 16 - i,
    {
        let b = cid[i];
        s.append(hex_str_of(b / 16));
        s.append(hex_str_of(b % 16));
        proof {
            assert(s@ =~= hex_chars_of(cid@).take(2 * (i as int + 1)));
        }
        i += 1;
    }
    proof {
        assert(hex_chars_of(cid@).take(32) =~= hex_chars_of(cid@));
    }
    s
}

} // verus!
