//! Parsing of `#RRGGBB` color arguments.

use vstd::prelude::*;
use vstd::utf8::*;
use vstd::string::*;
use crate::effects::Rgb;

verus! {

broadcast use vstd::string::group_string_axioms;

/// The byte of the character `#`.
pub const HASH: u8 = 0x23;

/// Why a color text is refused, as the specification tells the cases apart.
#[derive(Debug, PartialEq, Eq, Clone, Copy, Structural)]
pub enum ColorFault {
    /// After the leading `#` characters the text is not exactly six bytes long.
    WrongLength,
    /// One of the three byte pairs is not a hexadecimal number.
    InvalidDigit,
}

/// Why a color argument was refused.
#[derive(Debug, PartialEq, Eq, Clone)]
pub enum ColorError {
    /// After the leading `#` characters the text, held here, is not exactly six bytes long.
    WrongLength(String),
    /// One of the three byte pairs is not a hexadecimal number.
    InvalidDigit,
}

impl ColorError {
    /// The kind of refusal.
    pub open spec fn fault(self) -> ColorFault {
        match self {
            ColorError::WrongLength(_) => ColorFault::WrongLength,
            ColorError::InvalidDigit => ColorFault::InvalidDigit,
        }
    }

    /// The message that tells the user why the argument was refused.
    pub fn to_string(&self) -> (m: String)
        ensures
            m@ == (match self {
                ColorError::WrongLength(got) => "expected #RRGGBB, got: "@ + got@,
                ColorError::InvalidDigit => "invalid digit found in string"@,
            }),
    {
        match self {
            ColorError::WrongLength(got) => {
                let mut m = String::from_str("expected #RRGGBB, got: ");
                m.append(got.as_str());
                m
            },
            ColorError::InvalidDigit => String::from_str("invalid digit found in string"),
        }
    }
}

/// The bytes left after removing every leading `#`.
pub open spec fn strip_hashes(b: Seq<u8>) -> Seq<u8>
    decreases b.len(),
{
    if b.len() > 0 && b[0] == HASH {
        strip_hashes(b.drop_first())
    } else {
        b
    }
}

/// The value of one hexadecimal digit, either case.
pub open spec fn hex_digit(c: u8) -> Option<u8> {
    if 0x30 <= c <= 0x39 {
        Some((c - 0x30) as u8)
    } else if 0x61 <= c <= 0x66 {
        Some((c - 0x61 + 10) as u8)
    } else if 0x41 <= c <= 0x46 {
        Some((c - 0x41 + 10) as u8)
    } else {
        None
    }
}

/// The byte that two hexadecimal digits denote, high digit first; `None`
/// unless both bytes are hexadecimal digits.
pub open spec fn hex_pair(hi: u8, lo: u8) -> Option<u8> {
    match (hex_digit(hi), hex_digit(lo)) {
        (Some(h), Some(l)) => Some((h * 16 + l) as u8),
        _ => None,
    }
}

/// The color that the text `t` (leading `#` already removed) denotes.
pub open spec fn color_of(t: Seq<u8>) -> Result<Rgb, ColorFault> {
    if t.len() != 6 {
        Err(ColorFault::WrongLength)
    } else {
        match (hex_pair(t[0], t[1]), hex_pair(t[2], t[3]), hex_pair(t[4], t[5])) {
            (Some(r), Some(g), Some(b)) => Ok((r, g, b)),
            _ => Err(ColorFault::InvalidDigit),
        }
    }
}

proof fn lemma_strip_hashes_at(b: Seq<u8>, k: int)
    requires
        0 <= k <= b.len(),
        forall|j: int| 0 <= j < k ==> b[j] == HASH,
        k == b.len() || b[k] != HASH,
    ensures
        strip_hashes(b) == b.subrange(k, b.len() as int),
    decreases k,
{
    if k == 0 {
        assert(b.subrange(0, b.len() as int) =~= b);
    } else {
        let rest = b.drop_first();
        assert forall|j: int| 0 <= j < k - 1 implies rest[j] == HASH by {
            assert(rest[j] == b[j + 1]);
        }
        lemma_strip_hashes_at(rest, k - 1);
        assert(rest.subrange(k - 1, rest.len() as int) =~= b.subrange(k, b.len() as int));
    }
}

proof fn lemma_ascii_prefix_boundary(b: Seq<u8>, k: int)
    requires
        valid_utf8(b),
        0 <= k <= b.len(),
        forall|j: int| 0 <= j < k ==> b[j] == HASH,
    ensures
        is_char_boundary(b, k),
    decreases k,
{
    if k > 0 {
        let rest = pop_first_scalar(b);
        assert(length_of_first_scalar(b) == 1);
        assert(rest =~= b.drop_first());
        assert forall|j: int| 0 <= j < k - 1 implies rest[j] == HASH by {
            assert(rest[j] == b[j + 1]);
        }
        lemma_ascii_prefix_boundary(rest, k - 1);
    }
}

/// `s` without its leading `#` characters.
pub fn trim_hashes(s: &str) -> (t: &str)
    ensures
        t.spec_bytes() == strip_hashes(s.spec_bytes()),
{
    let bytes = s.as_bytes();
    let n = bytes.len();
    let mut k: usize = 0;
    while k < n && bytes[k] == HASH
        invariant
            n == bytes@.len(),
            bytes@ == s.spec_bytes(),
            k <= n,
            forall|j: int| 0 <= j < k ==> bytes@[j] == HASH,
        decreases n - k,
    {
        k = k + 1;
    }
    proof {
        lemma_strip_hashes_at(bytes@, k as int);
        encode_utf8_valid_utf8(s@);
        lemma_ascii_prefix_boundary(bytes@, k as int);
    }
    let (_head, tail) = s.split_at(k);
    tail
}

/// The value of one hexadecimal digit byte.
fn parse_hex_digit(c: u8) -> (r: Option<u8>)
    ensures
        r == hex_digit(c),
{
    if 0x30 <= c && c <= 0x39 {
        Some(c - 0x30)
    } else if 0x61 <= c && c <= 0x66 {
        Some(c - 0x61 + 10)
    } else if 0x41 <= c && c <= 0x46 {
        Some(c - 0x41 + 10)
    } else {
        None
    }
}

/// The byte that a two-byte base-16 text denotes, as `hex_pair` describes.
fn parse_hex_pair(hi: u8, lo: u8) -> (r: Option<u8>)
    ensures
        r == hex_pair(hi, lo),
{
    match (parse_hex_digit(hi), parse_hex_digit(lo)) {
        (Some(h), Some(l)) => Some(h * 16 + l),
        _ => None,
    }
}

/// Parse a color written `#RRGGBB` (any number of leading `#`, including none):
/// six hexadecimal digits of either case, and nothing else. A refusal for the
/// wrong length holds the text after the leading `#`s.
pub fn parse_color(s: &str) -> (r: Result<Rgb, ColorError>)
    ensures
        (match r {
            Ok(c) => color_of(strip_hashes(s.spec_bytes())) == Ok::<Rgb, ColorFault>(c),
            Err(e) => color_of(strip_hashes(s.spec_bytes())) == Err::<Rgb, ColorFault>(e.fault()),
        }),
        r matches Err(ColorError::WrongLength(got)) ==> encode_utf8(got@) == strip_hashes(
            s.spec_bytes(),
        ),
{
    let t = trim_hashes(s);
    let b = t.as_bytes();
    if b.len() != 6 {
        return Err(ColorError::WrongLength(t.to_owned()));
    }
    let red = parse_hex_pair(b[0], b[1]);
    let green = parse_hex_pair(b[2], b[3]);
    let blue = parse_hex_pair(b[4], b[5]);
    match (red, green, blue) {
        (Some(r), Some(g), Some(bl)) => Ok((r, g, bl)),
        _ => Err(ColorError::InvalidDigit),
    }
}


/// The upper-case hexadecimal digit of a value below 16.
pub open spec fn hex_upper(n: u8) -> u8
    recommends
        n < 16,
{
    if n < 10 {
        (0x30 + n) as u8
    } else {
        (0x41 + n - 10) as u8
    }
}

/// The text `#RRGGBB` of a color, with upper-case digits.
pub open spec fn format_color(c: Rgb) -> Seq<u8> {
    seq![
        HASH,
        hex_upper(c.0 / 16),
        hex_upper(c.0 % 16),
        hex_upper(c.1 / 16),
        hex_upper(c.1 % 16),
        hex_upper(c.2 / 16),
        hex_upper(c.2 % 16),
    ]
}

proof fn lemma_hex_upper_digit(n: u8)
    requires
        n < 16,
    ensures
        hex_digit(hex_upper(n)) == Some(n),
        hex_upper(n) != HASH,
{
}

proof fn lemma_hex_pair_of_byte(v: u8)
    ensures
        hex_pair(hex_upper(v / 16), hex_upper(v % 16)) == Some(v),
        hex_upper(v / 16) != HASH,
{
    lemma_hex_upper_digit(v / 16);
    lemma_hex_upper_digit(v % 16);
}

/// A color written as `#RRGGBB` reads back as the same color.
pub proof fn lemma_parse_format_roundtrip(c: Rgb)
    ensures
        color_of(strip_hashes(format_color(c))) == Ok::<Rgb, ColorFault>(c),
{
    let f = format_color(c);
    lemma_hex_pair_of_byte(c.0);
    lemma_hex_pair_of_byte(c.1);
    lemma_hex_pair_of_byte(c.2);
    lemma_hex_upper_digit(c.1 / 16);
    lemma_hex_upper_digit(c.2 / 16);
    let t = f.drop_first();
    assert(strip_hashes(t) == t);
    assert(strip_hashes(f) == t);
}

/// Whether a byte is one of the characters `0`-`9`, `A`-`F`, `a`-`f`.
pub open spec fn is_hex_char(c: u8) -> bool {
    (0x30 <= c <= 0x39) || (0x41 <= c <= 0x46) || (0x61 <= c <= 0x66)
}

/// A text is accepted exactly when, after its leading `#`s, it is six
/// characters among `0`-`9`, `A`-`F`, `a`-`f`.
pub proof fn lemma_accepted_iff_six_hex_digits(t: Seq<u8>)
    ensures
        color_of(t) is Ok <==> (t.len() == 6 && forall|i: int|
            0 <= i < 6 ==> #[trigger] is_hex_char(t[i])),
{
    assert forall|c: u8| #[trigger] is_hex_char(c) <==> hex_digit(c) is Some by {}
    if t.len() == 6 && color_of(t) is Ok {
        assert forall|i: int| 0 <= i < 6 implies #[trigger] is_hex_char(t[i]) by {
            if i == 0 || i == 1 {
                assert(hex_pair(t[0], t[1]) is Some);
            } else if i == 2 || i == 3 {
                assert(hex_pair(t[2], t[3]) is Some);
            } else {
                assert(hex_pair(t[4], t[5]) is Some);
            }
        }
    }
    if t.len() == 6 && (forall|i: int| 0 <= i < 6 ==> #[trigger] is_hex_char(t[i])) {
        assert(is_hex_char(t[0]) && is_hex_char(t[1]));
        assert(is_hex_char(t[2]) && is_hex_char(t[3]));
        assert(is_hex_char(t[4]) && is_hex_char(t[5]));
    }
}

/// The digit of a value below 16, upper- or lower-case as asked.
pub open spec fn hex_char(n: u8, upper: bool) -> u8
    recommends
        n < 16,
{
    if n < 10 {
        (0x30 + n) as u8
    } else if upper {
        (0x41 + n - 10) as u8
    } else {
        (0x61 + n - 10) as u8
    }
}

/// The text `#RRGGBB` of a color, digit `i` upper-case exactly when `upper[i]`.
pub open spec fn format_color_cased(c: Rgb, upper: Seq<bool>) -> Seq<u8> {
    seq![
        HASH,
        hex_char(c.0 / 16, upper[0]),
        hex_char(c.0 % 16, upper[1]),
        hex_char(c.1 / 16, upper[2]),
        hex_char(c.1 % 16, upper[3]),
        hex_char(c.2 / 16, upper[4]),
        hex_char(c.2 % 16, upper[5]),
    ]
}

proof fn lemma_hex_char_digit(n: u8, upper: bool)
    requires
        n < 16,
    ensures
        hex_digit(hex_char(n, upper)) == Some(n),
        hex_char(n, upper) != HASH,
{
}

/// A color written as `#RRGGBB`, each digit in whichever case, reads back as
/// that color: in every position, `a`-`f` and `A`-`F` both stand for 10-15.
pub proof fn lemma_parse_any_case_roundtrip(c: Rgb, upper: Seq<bool>)
    requires
        upper.len() == 6,
    ensures
        color_of(strip_hashes(format_color_cased(c, upper))) == Ok::<Rgb, ColorFault>(c),
{
    let f = format_color_cased(c, upper);
    lemma_hex_char_digit(c.0 / 16, upper[0]);
    lemma_hex_char_digit(c.0 % 16, upper[1]);
    lemma_hex_char_digit(c.1 / 16, upper[2]);
    lemma_hex_char_digit(c.1 % 16, upper[3]);
    lemma_hex_char_digit(c.2 / 16, upper[4]);
    lemma_hex_char_digit(c.2 % 16, upper[5]);
    let t = f.drop_first();
    assert(strip_hashes(t) == t);
    assert(strip_hashes(f) == t);
}

/// A run of `k` characters `#`.
pub open spec fn hashes(k: nat) -> Seq<u8> {
    Seq::new(k, |_i: int| HASH)
}

/// Removing the leading `#`s keeps the rest of the text as it is: the text is
/// some number of `#`s followed by the result, which does not start with `#`.
pub proof fn lemma_strip_hashes_shape(b: Seq<u8>)
    ensures
        strip_hashes(b).len() == 0 || strip_hashes(b)[0] != HASH,
        exists|k: nat|
            k <= b.len() && b == #[trigger] hashes(k) + strip_hashes(b),
    decreases b.len(),
{
    if b.len() > 0 && b[0] == HASH {
        let rest = b.drop_first();
        lemma_strip_hashes_shape(rest);
        let k = choose|k: nat|
            k <= rest.len() && rest == #[trigger] hashes(k) + strip_hashes(rest);
        assert(strip_hashes(b) == strip_hashes(rest));
        assert(b =~= seq![HASH] + rest);
        assert(hashes(k + 1) =~= seq![HASH] + hashes(k));
        assert(seq![HASH] + (hashes(k) + strip_hashes(rest)) =~= (seq![HASH] + hashes(k))
            + strip_hashes(rest));
        assert(b =~= hashes(k + 1) + strip_hashes(b));
    } else {
        assert(b =~= hashes(0) + strip_hashes(b));
    }
}

/// One more leading `#` leaves the text that is parsed unchanged, so any number
/// of leading `#` characters gives the same color.
pub proof fn lemma_extra_hash_ignored(b: Seq<u8>)
    ensures
        strip_hashes(seq![HASH] + b) == strip_hashes(b),
{
    assert((seq![HASH] + b).drop_first() =~= b);
}

} // verus!
