//! Hexadecimal encoding and decoding of byte strings, used for the
//! hex-string fields of the relay protocol.

use vstd::prelude::*;

verus! {

use vstd::string::StrSliceExecFns;

/// The ASCII byte of the lowercase hex digit with value `n`.
pub open spec fn spec_hex_digit(n: u8) -> u8
    recommends
        n < 16,
{
    if n < 10 {
        (0x30 + n) as u8
    } else {
        (0x57 + n) as u8
    }
}

/// Lowercase hex encoding: two digits per byte, high nibble first.
pub open spec fn spec_hex_encode(bytes: Seq<u8>) -> Seq<u8>
    decreases bytes.len(),
{
    if bytes.len() == 0 {
        Seq::empty()
    } else {
        spec_hex_encode(bytes.drop_last()) + seq![
            spec_hex_digit(bytes.last() / 16),
            spec_hex_digit(bytes.last() % 16),
        ]
    }
}

/// ASCII bytes read as the characters with the same code points.
pub open spec fn chars_of_ascii(bytes: Seq<u8>) -> Seq<char> {
    bytes.map_values(|b: u8| b as char)
}

/// The value of a hex digit character, lowercase or uppercase.
pub open spec fn spec_hex_val(c: char) -> Option<u8> {
    let u = c as u32;
    if 0x30 <= u <= 0x39 {
        Some((u - 0x30) as u8)
    } else if 0x61 <= u <= 0x66 {
        Some((u - 0x61 + 10) as u8)
    } else if 0x41 <= u <= 0x46 {
        Some((u - 0x41 + 10) as u8)
    } else {
        None
    }
}

/// Whether `s` decodes as hex: an even count of hex digit characters.
pub open spec fn spec_hex_decode_ok(s: Seq<char>) -> bool {
    &&& s.len() % 2 == 0
    &&& forall|k: int| 0 <= k < s.len() ==> (#[trigger] spec_hex_val(s[k])) is Some
}

/// The bytes a run of hex digit characters decodes to, two digits per byte.
pub open spec fn spec_hex_bytes(s: Seq<char>) -> Seq<u8>
    recommends
        spec_hex_decode_ok(s),
{
    Seq::new(
        (s.len() / 2) as nat,
        |k: int|
            (spec_hex_val(s[2 * k]).unwrap() * 16 + spec_hex_val(s[2 * k + 1]).unwrap()) as u8,
    )
}

/// Relies on `String::from_utf8`: bytes below 0x80 are one-byte UTF-8
/// encodings of the code points with the same values, so an all-ASCII byte
/// string decodes to exactly those characters.
#[verifier::external_body]
fn ascii_to_string(bytes: Vec<u8>) -> (s: String)
    requires
        forall|k: int| 0 <= k < bytes@.len() ==> bytes@[k] < 128,
    ensures
        s@ == chars_of_ascii(bytes@),
{
    match String::from_utf8(bytes) {
        Ok(s) => s,
        Err(_) => String::new(),
    }
}

/// The ASCII byte of the lowercase hex digit with value `n`.
fn hex_digit(n: u8) -> (d: u8)
    requires
        n < 16,
    ensures
        d == spec_hex_digit(n),
        d < 128,
{
    if n < 10 {
        0x30 + n
    } else {
        0x57 + n
    }
}

/// Encodes bytes as a lowercase hex string, two digits per byte.
pub fn hex_encode(bytes: &Vec<u8>) -> (s: String)
    ensures
        s@ == chars_of_ascii(spec_hex_encode(bytes@)),
        s@.len() == 2 * bytes@.len(),
{
    let mut out: Vec<u8> = Vec::new();
    let mut i: usize = 0;
    while i < bytes.len()
        invariant
            i <= bytes@.len(),
            out@ == spec_hex_encode(bytes@.take(i as int)),
            out@.len() == 2 * i,
            forall|k: int| 0 <= k < out@.len() ==> out@[k] < 128,
        decreases bytes@.len() - i,
    {
        let b: u8 = bytes[i];
        out.push(hex_digit(b / 16));
        out.push(hex_digit(b % 16));
        proof {
            assert(bytes@.take(i + 1).drop_last() =~= bytes@.take(i as int));
            assert(out@ =~= spec_hex_encode(bytes@.take(i + 1)));
        }
        i += 1;
    }
    proof {
        assert(bytes@.take(bytes@.len() as int) =~= bytes@);
    }
    ascii_to_string(out)
}

/// The value of a hex digit character, lowercase or uppercase.
fn hex_val(c: char) -> (r: Option<u8>)
    ensures
        r == spec_hex_val(c),
{
    let u: u32 = c as u32;
    if 0x30 <= u && u <= 0x39 {
        Some((u - 0x30) as u8)
    } else if 0x61 <= u && u <= 0x66 {
        Some((u - 0x61 + 10) as u8)
    } else if 0x41 <= u && u <= 0x46 {
        Some((u - 0x41 + 10) as u8)
    } else {
        None
    }
}

/// Decodes a hex string into bytes: `None` unless it is an even count of
/// hex digit characters.
pub fn hex_decode(s: &str) -> (r: Option<Vec<u8>>)
    ensures
        spec_hex_decode_ok(s@) ==> (r matches Some(v) && v@ == spec_hex_bytes(s@)),
        !spec_hex_decode_ok(s@) ==> r is None,
        r matches Some(v) ==> 2 * v@.len() == s@.len(),
{
    let n: usize = s.unicode_len();
    if n % 2 != 0 {
        return None;
    }
    proof {
        vstd::arithmetic::div_mod::lemma_fundamental_div_mod(n as int, 2);
    }
    let pairs: usize = n / 2;
    let mut out: Vec<u8> = Vec::new();
    let mut j: usize = 0;
    while j < pairs
        invariant
            s@.len() == n,
            n % 2 == 0,
            pairs == n / 2,
            2 * pairs == n,
            j <= pairs,
            out@.len() == j,
            forall|k: int| 0 <= k < 2 * j ==> (#[trigger] spec_hex_val(s@[k])) is Some,
            forall|k: int|
                0 <= k < j ==> out@[k] == (spec_hex_val(s@[2 * k]).unwrap() * 16 + spec_hex_val(
                    s@[2 * k + 1],
                ).unwrap()) as u8,
        decreases pairs - j,
    {
        let hi: u8 = match hex_val(s.get_char(2 * j)) {
            Some(v) => v,
            None => {
                proof {
                    assert(!spec_hex_decode_ok(s@)) by {
                        assert(spec_hex_val(s@[2 * j]) is None);
                    }
                }
                return None;
            },
        };
        let lo: u8 = match hex_val(s.get_char(2 * j + 1)) {
            Some(v) => v,
            None => {
                proof {
                    assert(!spec_hex_decode_ok(s@)) by {
                        assert(spec_hex_val(s@[2 * j + 1]) is None);
                    }
                }
                return None;
            },
        };
        out.push(hi * 16 + lo);
        j += 1;
    }
    proof {
        assert(spec_hex_decode_ok(s@));
        assert(out@ =~= spec_hex_bytes(s@));
    }
    Some(out)
}

} // verus!
