//! What the built-in shims compute: the bytes behind a base64 text, and the
//! line that a logging call writes.

use crate::text::chars_of;
use crate::text::join_lines;
use crate::text::joined;
use crate::text::texts;
use vstd::prelude::*;

verus! {

/// Whether a character is ASCII white space, which a base64 text may hold
/// anywhere.
pub open spec fn is_blank_spec(c: char) -> bool {
    c == '\t' || c == '\n' || c == '\x0C' || c == '\r' || c == ' '
}

/// The six bits that a character of the base64 alphabet stands for.
pub open spec fn sextet_spec(c: char) -> Option<u8> {
    let u = c as u32;
    if 0x41 <= u <= 0x5A {
        Some((u - 0x41) as u8)
    } else if 0x61 <= u <= 0x7A {
        Some((u - 0x61 + 26) as u8)
    } else if 0x30 <= u <= 0x39 {
        Some((u - 0x30 + 52) as u8)
    } else if u == 0x2B {
        Some(62u8)
    } else if u == 0x2F {
        Some(63u8)
    } else {
        None
    }
}

/// A text without its ASCII white space.
pub open spec fn unblanked(s: Seq<char>) -> Seq<char>
    decreases s.len(),
{
    if s.len() == 0 {
        s
    } else if is_blank_spec(s.last()) {
        unblanked(s.drop_last())
    } else {
        unblanked(s.drop_last()).push(s.last())
    }
}

/// A base64 text without its padding: where its length is a multiple of
/// four, without the one or two `=` at its end.
pub open spec fn unpadded(s: Seq<char>) -> Seq<char> {
    if s.len() > 0 && s.len() % 4 == 0 && s[s.len() - 1] == '=' {
        if s[s.len() - 2] == '=' {
            s.take(s.len() - 2)
        } else {
            s.take(s.len() - 1)
        }
    } else {
        s
    }
}

/// Whether every character belongs to the base64 alphabet.
pub open spec fn all_in_alphabet(s: Seq<char>) -> bool {
    forall|i: int| 0 <= i < s.len() ==> sextet_spec(#[trigger] s[i]) is Some
}

/// The six-bit values of a text over the base64 alphabet.
pub open spec fn sextets(s: Seq<char>) -> Seq<u8> {
    Seq::new(s.len(), |i: int| sextet_spec(s[i]).unwrap())
}

/// The first byte of a group: the six bits of `a` and the upper two of `b`.
pub open spec fn first_byte(a: u8, b: u8) -> u8 {
    (a * 4 + b / 16) as u8
}

/// The second byte of a group: the lower four bits of `b` and the upper
/// four of `c`.
pub open spec fn second_byte(b: u8, c: u8) -> u8 {
    ((b % 16) * 16 + c / 4) as u8
}

/// The third byte of a group: the lower two bits of `c` and the six of `d`.
pub open spec fn third_byte(c: u8, d: u8) -> u8 {
    ((c % 4) * 64 + d) as u8
}

/// The bytes that a sequence of six-bit values packs into: three for each
/// four, and at the end one for two or two for three, the bits left over
/// dropped.
pub open spec fn packed(v: Seq<u8>) -> Seq<u8>
    decreases v.len(),
{
    if v.len() >= 4 {
        seq![first_byte(v[0], v[1]), second_byte(v[1], v[2]), third_byte(v[2], v[3])] + packed(
            v.skip(4),
        )
    } else if v.len() == 3 {
        seq![first_byte(v[0], v[1]), second_byte(v[1], v[2])]
    } else if v.len() == 2 {
        seq![first_byte(v[0], v[1])]
    } else {
        Seq::empty()
    }
}

/// The bytes behind a base64 text, read forgivingly: white space is
/// skipped and padding is optional. A text with a character outside the
/// alphabet, or with one character too many for whole bytes, stands for
/// nothing.
pub open spec fn base64_decoded(s: Seq<char>) -> Option<Seq<u8>> {
    let data = unpadded(unblanked(s));
    if data.len() % 4 == 1 || !all_in_alphabet(data) {
        None
    } else {
        Some(packed(sextets(data)))
    }
}

/// Whether a character is ASCII white space.
pub fn is_blank(c: char) -> (blank: bool)
    ensures
        blank == is_blank_spec(c),
{
    c == '\t' || c == '\n' || c == '\x0C' || c == '\r' || c == ' '
}

/// The six bits that a character of the base64 alphabet stands for.
pub fn sextet(c: char) -> (bits: Option<u8>)
    ensures
        bits == sextet_spec(c),
        bits matches Some(b) ==> b < 64,
{
    let u = c as u32;
    if 0x41 <= u && u <= 0x5A {
        Some((u - 0x41) as u8)
    } else if 0x61 <= u && u <= 0x7A {
        Some((u - 0x61 + 26) as u8)
    } else if 0x30 <= u && u <= 0x39 {
        Some((u - 0x30 + 52) as u8)
    } else if u == 0x2B {
        Some(62u8)
    } else if u == 0x2F {
        Some(63u8)
    } else {
        None
    }
}

/// The number of bytes that `n` six-bit values pack into.
pub open spec fn packed_len(n: int) -> int {
    3 * (n / 4) + (if n % 4 >= 2 {
        n % 4 - 1
    } else {
        0
    })
}

/// Packing gives three bytes for each four values and drops what is left
/// over of the last group.
pub proof fn lemma_packed_len(v: Seq<u8>)
    ensures
        packed(v).len() == packed_len(v.len() as int),
    decreases v.len(),
{
    if v.len() >= 4 {
        lemma_packed_len(v.skip(4));
    }
}

/// The bytes behind a base64 text, or `None` where the text is no base64.
pub fn decode_base64(text: &str) -> (bytes: Option<Vec<u8>>)
    ensures
        match bytes {
            Some(b) => base64_decoded(text@) == Some(b@),
            None => base64_decoded(text@) is None,
        },
{
    let chars = chars_of(text);
    let mut data: Vec<char> = Vec::new();
    let mut i: usize = 0;
    while i < chars.len()
        invariant
            i <= chars.len(),
            data@ == unblanked(chars@.take(i as int)),
        decreases chars.len() - i,
    {
        proof {
            assert(chars@.take(i + 1).drop_last() =~= chars@.take(i as int));
        }
        if !is_blank(chars[i]) {
            data.push(chars[i]);
        }
        i += 1;
    }
    proof {
        assert(chars@.take(chars.len() as int) =~= chars@);
    }
    let mut end = data.len();
    if end > 0 && end % 4 == 0 && data[end - 1] == '=' {
        if data[end - 2] == '=' {
            end = end - 2;
        } else {
            end = end - 1;
        }
    }
    let ghost clean = unpadded(data@);
    proof {
        assert(clean =~= data@.take(end as int));
    }
    if end % 4 == 1 {
        return None;
    }
    let mut values: Vec<u8> = Vec::new();
    let mut j: usize = 0;
    while j < end
        invariant
            j <= end <= data.len(),
            clean == data@.take(end as int),
            clean == unpadded(unblanked(text@)),
            values@.len() == j,
            forall|k: int| 0 <= k < j ==> sextet_spec(data@[k]) == Some(#[trigger] values@[k]),
            forall|k: int| 0 <= k < j ==> #[trigger] values@[k] < 64,
        decreases end - j,
    {
        match sextet(data[j]) {
            Some(bits) => {
                values.push(bits);
            },
            None => {
                proof {
                    assert(clean[j as int] == data@[j as int]);
                }
                return None;
            },
        }
        j += 1;
    }
    proof {
        assert forall|k: int| 0 <= k < clean.len() implies sextet_spec(#[trigger] clean[k])
            is Some by {
            assert(clean[k] == data@[k]);
            assert(sextet_spec(data@[k]) == Some(values@[k]));
        }
        assert(values@ =~= sextets(clean));
    }
    let mut out: Vec<u8> = Vec::new();
    let mut at: usize = 0;
    proof {
        assert(values@.skip(0) =~= values@);
        assert(out@ + packed(values@) =~= packed(values@));
    }
    while end - at >= 4
        invariant
            at <= end,
            end == values@.len(),
            forall|k: int| 0 <= k < end ==> #[trigger] values@[k] < 64,
            out@ + packed(values@.skip(at as int)) == packed(values@),
        decreases end - at,
    {
        let a = values[at];
        let b = values[at + 1];
        let c = values[at + 2];
        let d = values[at + 3];
        let ghost before = out@;
        out.push(a * 4 + b / 16);
        out.push((b % 16) * 16 + c / 4);
        out.push((c % 4) * 64 + d);
        proof {
            let rest = values@.skip(at as int);
            assert(rest.skip(4) =~= values@.skip(at + 4));
            assert(out@ =~= before + seq![first_byte(a, b), second_byte(b, c), third_byte(c, d)]);
            assert(out@ + packed(values@.skip(at + 4)) =~= before + packed(rest));
        }
        at += 4;
    }
    let ghost rest = values@.skip(at as int);
    let ghost before = out@;
    if end - at == 3 {
        let a = values[at];
        let b = values[at + 1];
        let c = values[at + 2];
        out.push(a * 4 + b / 16);
        out.push((b % 16) * 16 + c / 4);
        proof {
            assert(out@ =~= before + packed(rest));
        }
    } else if end - at == 2 {
        let a = values[at];
        let b = values[at + 1];
        out.push(a * 4 + b / 16);
        proof {
            assert(out@ =~= before + packed(rest));
        }
    } else {
        proof {
            assert(out@ =~= before + packed(rest));
        }
    }
    Some(out)
}

/// The line that a logging call writes: its arguments as texts, separated
/// by blanks.
pub open spec fn log_line_spec(parts: Seq<Seq<char>>) -> Seq<char> {
    joined(parts, " "@)
}

/// The line that a logging call writes for the given arguments.
pub fn log_line(parts: &Vec<&str>) -> (line: String)
    ensures
        line@ == log_line_spec(texts(parts@)),
{
    join_lines(parts, " ")
}

} // verus!
