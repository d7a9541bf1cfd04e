//! RGBA colors and the textual color syntax: `#RRGGBB[AA]`,
//! `rgb(r, g, b)` and `rgba(<color or r, g, b>, alpha)`.
//!
//! Parsers read `source` from the byte position `*pos` and leave `*pos`
//! just after the text they consumed, on success and on failure alike.
use vstd::prelude::*;
use vstd::string::StringSliceAdditionalSpecFns;

verus! {

/// An 8-bit-per-channel RGBA color.
#[derive(Clone, Copy, Debug, Default, PartialEq, Eq, Structural, Hash, PartialOrd, Ord)]
pub struct Color {
    pub r: u8,
    pub g: u8,
    pub b: u8,
    pub a: u8,
}

/// The color whose channels are the bytes of `rgba`, red first.
pub open spec fn color_from_u32(rgba: u32) -> Color {
    Color {
        r: (rgba >> 24u32) as u8,
        g: ((rgba >> 16u32) & 0xffu32) as u8,
        b: ((rgba >> 8u32) & 0xffu32) as u8,
        a: (rgba & 0xffu32) as u8,
    }
}

impl Color {
    pub fn transparent_black() -> (c: Self)
        ensures
            c == (Color { r: 0, g: 0, b: 0, a: 0 }),
    {
        Color { r: 0, g: 0, b: 0, a: 0 }
    }

    pub fn black() -> (c: Self)
        ensures
            c == (Color { r: 0, g: 0, b: 0, a: 255 }),
    {
        Color { r: 0, g: 0, b: 0, a: 255 }
    }

    pub fn white() -> (c: Self)
        ensures
            c == (Color { r: 255, g: 255, b: 255, a: 255 }),
    {
        Color { r: 255, g: 255, b: 255, a: 255 }
    }

    pub fn red() -> (c: Self)
        ensures
            c == color_from_u32(0xff0000ffu32),
    {
        Self::from_u32(0xff0000ff)
    }

    pub fn green() -> (c: Self)
        ensures
            c == color_from_u32(0x00ff00ffu32),
    {
        Self::from_u32(0x00ff00ff)
    }

    pub fn blue() -> (c: Self)
        ensures
            c == color_from_u32(0x0000ffffu32),
    {
        Self::from_u32(0x0000ffff)
    }

    pub fn new(r: u8, g: u8, b: u8, a: u8) -> (c: Self)
        ensures
            c == (Color { r, g, b, a }),
    {
        Color { r, g, b, a }
    }

    /// The color whose red, green, blue and alpha channels are the bytes of
    /// `rgba` from the most significant down.
    pub fn from_u32(rgba: u32) -> (c: Self)
        ensures
            c == color_from_u32(rgba),
    {
        Color {
            r: (rgba >> 24u32) as u8,
            g: ((rgba >> 16u32) & 0xff) as u8,
            b: ((rgba >> 8u32) & 0xff) as u8,
            a: (rgba & 0xff) as u8,
        }
    }
}

/// Why a color text was refused.
#[derive(Clone, Copy, Debug, PartialEq, Eq, Structural)]
pub enum ColorParseError {
    /// The text starts with none of `rgba(`, `rgb(` and `#`.
    InvalidFormat,
    /// An expected piece of text (such as `(`, `,` or `)`) is missing.
    MissingPrefix,
    /// No hexadecimal digits, or more than fit in 32 bits.
    ExpectedHexNumber,
    /// A hexadecimal color with other than 6 or 8 digits.
    WrongHexDigitCount,
    /// No decimal digits, or a value above 255.
    ExpectedInteger,
    /// The alpha part is not a decimal number.
    ExpectedFloat,
}

/// The alpha part of a parsed color: a byte, or the decimal text of an
/// `rgba(...)` alpha, whose conversion to a byte is left to the caller.
pub enum Alpha {
    Byte(u8),
    Decimal(Vec<u8>),
}

/// The alpha part of a parsed color, as a mathematical value.
pub enum AlphaView {
    Byte(u8),
    Decimal(Seq<u8>),
}

/// A parsed color text.
pub struct ColorSyntax {
    pub r: u8,
    pub g: u8,
    pub b: u8,
    pub alpha: Alpha,
}

/// A parsed color text, as a mathematical value.
pub struct ColorSyntaxView {
    pub r: u8,
    pub g: u8,
    pub b: u8,
    pub alpha: AlphaView,
}

impl View for ColorSyntax {
    type V = ColorSyntaxView;

    open spec fn view(&self) -> ColorSyntaxView {
        ColorSyntaxView {
            r: self.r,
            g: self.g,
            b: self.b,
            alpha: match self.alpha {
                Alpha::Byte(a) => AlphaView::Byte(a),
                Alpha::Decimal(d) => AlphaView::Decimal(d@),
            },
        }
    }
}

// ---- the grammar, over the bytes of the text ----

pub open spec fn is_dec_digit(c: u8) -> bool {
    48 <= c <= 57
}

pub open spec fn is_hex_digit(c: u8) -> bool {
    is_dec_digit(c) || (97 <= c <= 102) || (65 <= c <= 70)
}

pub open spec fn hex_digit_value(c: u8) -> int {
    if is_dec_digit(c) {
        c - 48
    } else if 97 <= c <= 102 {
        c - 87
    } else {
        c - 55
    }
}

/// The number of spaces starting at `p`.
pub open spec fn space_run(b: Seq<u8>, p: int) -> nat
    decreases b.len() - p,
{
    if 0 <= p < b.len() && b[p] == 32 {
        1 + space_run(b, p + 1)
    } else {
        0
    }
}

/// The number of decimal digits starting at `p`.
pub open spec fn dec_run(b: Seq<u8>, p: int) -> nat
    decreases b.len() - p,
{
    if 0 <= p < b.len() && is_dec_digit(b[p]) {
        1 + dec_run(b, p + 1)
    } else {
        0
    }
}

/// The number of hexadecimal digits starting at `p`.
pub open spec fn hex_run(b: Seq<u8>, p: int) -> nat
    decreases b.len() - p,
{
    if 0 <= p < b.len() && is_hex_digit(b[p]) {
        1 + hex_run(b, p + 1)
    } else {
        0
    }
}

/// The number of decimal digits and dots starting at `p`.
pub open spec fn decimal_run(b: Seq<u8>, p: int) -> nat
    decreases b.len() - p,
{
    if 0 <= p < b.len() && (is_dec_digit(b[p]) || b[p] == 46) {
        1 + decimal_run(b, p + 1)
    } else {
        0
    }
}

/// The value of the `n` decimal digits at `p`.
pub open spec fn dec_value(b: Seq<u8>, p: int, n: int) -> nat
    decreases n,
{
    if n <= 0 {
        0
    } else {
        dec_value(b, p, n - 1) * 10 + (b[p + n - 1] - 48) as nat
    }
}

/// The value of the `n` hexadecimal digits at `p`.
pub open spec fn hex_value(b: Seq<u8>, p: int, n: int) -> nat
    decreases n,
{
    if n <= 0 {
        0
    } else {
        hex_value(b, p, n - 1) * 16 + hex_digit_value(b[p + n - 1]) as nat
    }
}

/// The number of dots among the `n` bytes at `p`.
pub open spec fn dots(b: Seq<u8>, p: int, n: int) -> nat
    decreases n,
{
    if n <= 0 {
        0
    } else {
        dots(b, p, n - 1) + if b[p + n - 1] == 46 {
            1nat
        } else {
            0nat
        }
    }
}

/// Sixteen to the power `n`.
pub open spec fn hex_cap(n: int) -> nat
    decreases n,
{
    if n <= 0 {
        1
    } else {
        hex_cap(n - 1) * 16
    }
}

/// `lit` occurs in `b` at `p`.
pub open spec fn has_prefix(b: Seq<u8>, p: int, lit: Seq<u8>) -> bool {
    0 <= p && p + lit.len() <= b.len() && b.subrange(p, p + lit.len()) == lit
}

pub open spec fn rgba_open_bytes() -> Seq<u8> {
    seq![114u8, 103u8, 98u8, 97u8, 40u8]
}

pub open spec fn rgb_open_bytes() -> Seq<u8> {
    seq![114u8, 103u8, 98u8, 40u8]
}

pub open spec fn hash_bytes() -> Seq<u8> {
    seq![35u8]
}

pub open spec fn comma_bytes() -> Seq<u8> {
    seq![44u8]
}

pub open spec fn close_bytes() -> Seq<u8> {
    seq![41u8]
}

/// Position after the spaces at `p`.
pub open spec fn after_spaces(b: Seq<u8>, p: int) -> int {
    p + space_run(b, p)
}

/// Outcome and end position of reading a byte-sized decimal integer at `p`.
pub open spec fn spec_parse_int(b: Seq<u8>, p: int) -> (Result<u8, ColorParseError>, int) {
    let n = dec_run(b, p);
    let v = dec_value(b, p, n as int);
    (
        if n > 0 && v <= 255 {
            Ok(v as u8)
        } else {
            Err(ColorParseError::ExpectedInteger)
        },
        p + n,
    )
}

/// Outcome and end position of reading `lit` at `p`.
pub open spec fn spec_parse_prefix(b: Seq<u8>, p: int, lit: Seq<u8>) -> (Result<(), ColorParseError>, int) {
    if has_prefix(b, p, lit) {
        (Ok(()), p + lit.len())
    } else {
        (Err(ColorParseError::MissingPrefix), p)
    }
}

/// Outcome and end position of reading a comma, with spaces around it.
pub open spec fn spec_parse_comma(b: Seq<u8>, p: int) -> (Result<(), ColorParseError>, int) {
    let p1 = after_spaces(b, p);
    if has_prefix(b, p1, comma_bytes()) {
        (Ok(()), after_spaces(b, p1 + 1))
    } else {
        (Err(ColorParseError::MissingPrefix), p1)
    }
}

/// Outcome and end position of reading `int , int , int` at `p`.
pub open spec fn spec_parse_triple(b: Seq<u8>, p: int) -> (Result<(u8, u8, u8), ColorParseError>, int) {
    let (r, p1) = spec_parse_int(b, p);
    match r {
        Err(e) => (Err(e), p1),
        Ok(rv) => {
            let (c1, p2) = spec_parse_comma(b, p1);
            match c1 {
                Err(e) => (Err(e), p2),
                Ok(_) => {
                    let (g, p3) = spec_parse_int(b, p2);
                    match g {
                        Err(e) => (Err(e), p3),
                        Ok(gv) => {
                            let (c2, p4) = spec_parse_comma(b, p3);
                            match c2 {
                                Err(e) => (Err(e), p4),
                                Ok(_) => {
                                    let (bl, p5) = spec_parse_int(b, p4);
                                    match bl {
                                        Err(e) => (Err(e), p5),
                                        Ok(bv) => (Ok((rv, gv, bv)), p5),
                                    }
                                },
                            }
                        },
                    }
                },
            }
        },
    }
}

/// Outcome and end position of reading `rgb(r, g, b)` at `p`.
pub open spec fn spec_parse_rgb(b: Seq<u8>, p: int) -> (Result<Color, ColorParseError>, int) {
    if !has_prefix(b, p, rgb_open_bytes()) {
        (Err(ColorParseError::MissingPrefix), p)
    } else {
        let (t, p2) = spec_parse_triple(b, after_spaces(b, p + 4));
        match t {
            Err(e) => (Err(e), p2),
            Ok((rv, gv, bv)) => {
                let p3 = after_spaces(b, p2);
                if has_prefix(b, p3, close_bytes()) {
                    (Ok(Color { r: rv, g: gv, b: bv, a: 255 }), p3 + 1)
                } else {
                    (Err(ColorParseError::MissingPrefix), p3)
                }
            },
        }
    }
}

/// Outcome and end position of reading `#` and hexadecimal digits at `p`.
/// A well-formed color moves on by its digit count a second time.
pub open spec fn spec_parse_hex(b: Seq<u8>, p: int) -> (Result<Color, ColorParseError>, int) {
    if !has_prefix(b, p, hash_bytes()) {
        (Err(ColorParseError::MissingPrefix), p)
    } else {
        let q = p + 1;
        let n = hex_run(b, q);
        let v = hex_value(b, q, n as int);
        let p1 = q + n;
        if n == 0 || v > u32::MAX {
            (Err(ColorParseError::ExpectedHexNumber), p1)
        } else if n == 6 {
            (Ok(color_from_u32((v * 256 + 255) as u32)), p1 + n)
        } else if n == 8 {
            (Ok(color_from_u32(v as u32)), p1 + n)
        } else {
            (Err(ColorParseError::WrongHexDigitCount), p1)
        }
    }
}

/// The second move of a well-formed hexadecimal color at `p` does not
/// split a character and stays within the text.
pub open spec fn hex_in_bounds(b: Seq<u8>, p: int) -> bool {
    let q = p + 1;
    let n = hex_run(b, q);
    let v = hex_value(b, q, n as int);
    (has_prefix(b, p, hash_bytes()) && n > 0 && v <= u32::MAX && (n == 6 || n == 8)) ==> {
        &&& q + n + n <= b.len()
        &&& vstd::utf8::is_char_boundary(b.subrange(q + n, b.len() as int), n as int)
    }
}

/// Outcome and end position of reading an alpha number at `p`: digits and
/// at most one dot, with at least one digit.
pub open spec fn spec_parse_decimal(b: Seq<u8>, p: int) -> (Result<Seq<u8>, ColorParseError>, int) {
    let n = decimal_run(b, p);
    let d = dots(b, p, n as int);
    (
        if n > d && d <= 1 {
            Ok(b.subrange(p, p + n))
        } else {
            Err(ColorParseError::ExpectedFloat)
        },
        p + n,
    )
}

/// Outcome and end position of reading any color text at `p`.
pub open spec fn spec_parse_color(b: Seq<u8>, p: int) -> (Result<ColorSyntaxView, ColorParseError>, int)
    decreases b.len() - p, 1int,
{
    if has_prefix(b, p, rgba_open_bytes()) {
        spec_parse_rgba(b, p)
    } else if has_prefix(b, p, rgb_open_bytes()) {
        let (c, p1) = spec_parse_rgb(b, p);
        match c {
            Ok(c) => (Ok(ColorSyntaxView { r: c.r, g: c.g, b: c.b, alpha: AlphaView::Byte(c.a) }), p1),
            Err(e) => (Err(e), p1),
        }
    } else if has_prefix(b, p, hash_bytes()) {
        let (c, p1) = spec_parse_hex(b, p);
        match c {
            Ok(c) => (Ok(ColorSyntaxView { r: c.r, g: c.g, b: c.b, alpha: AlphaView::Byte(c.a) }), p1),
            Err(e) => (Err(e), p1),
        }
    } else {
        (Err(ColorParseError::InvalidFormat), p)
    }
}

/// Outcome and end position of reading `rgba(<color or r, g, b>, alpha)`
/// at `p`. When no whole color follows the opening, the text after the
/// failed attempt is read as three integers.
pub open spec fn spec_parse_rgba(b: Seq<u8>, p: int) -> (Result<ColorSyntaxView, ColorParseError>, int)
    decreases b.len() - p, 0int,
{
    if !has_prefix(b, p, rgba_open_bytes()) || p < 0 {
        (Err(ColorParseError::MissingPrefix), p)
    } else {
        let p1 = after_spaces(b, p + 5);
        let (c, p2) = if p1 <= b.len() {
            spec_parse_color(b, p1)
        } else {
            (Err(ColorParseError::InvalidFormat), p1)
        };
        let (rgb, p3) = match c {
            Ok(cv) => (Ok((cv.r, cv.g, cv.b)), p2),
            Err(_) => spec_parse_triple(b, p2),
        };
        match rgb {
            Err(e) => (Err(e), p3),
            Ok((rv, gv, bv)) => {
                let (c1, p4) = spec_parse_comma(b, p3);
                match c1 {
                    Err(e) => (Err(e), p4),
                    Ok(_) => {
                        let (a, p5) = spec_parse_decimal(b, p4);
                        match a {
                            Err(e) => (Err(e), p5),
                            Ok(digits) => {
                                let p6 = after_spaces(b, p5);
                                if has_prefix(b, p6, close_bytes()) {
                                    (
                                        Ok(
                                            ColorSyntaxView {
                                                r: rv,
                                                g: gv,
                                                b: bv,
                                                alpha: AlphaView::Decimal(digits),
                                            },
                                        ),
                                        p6 + 1,
                                    )
                                } else {
                                    (Err(ColorParseError::MissingPrefix), p6)
                                }
                            },
                        }
                    },
                }
            },
        }
    }
}

/// Reading any color text at `p` never moves past the end of the text or
/// into the middle of a character.
pub open spec fn color_in_bounds(b: Seq<u8>, p: int) -> bool
    decreases b.len() - p, 1int,
{
    if has_prefix(b, p, rgba_open_bytes()) {
        rgba_in_bounds(b, p)
    } else if has_prefix(b, p, rgb_open_bytes()) {
        true
    } else {
        hex_in_bounds(b, p)
    }
}

/// Reading `rgba(...)` at `p` never moves past the end of the text or into
/// the middle of a character.
pub open spec fn rgba_in_bounds(b: Seq<u8>, p: int) -> bool
    decreases b.len() - p, 0int,
{
    if !has_prefix(b, p, rgba_open_bytes()) || p < 0 {
        true
    } else {
        let p1 = after_spaces(b, p + 5);
        p1 <= b.len() ==> color_in_bounds(b, p1)
    }
}

/// The parsed result, as mathematical values.
pub open spec fn syntax_result(r: Result<ColorSyntax, ColorParseError>) -> Result<ColorSyntaxView, ColorParseError> {
    match r {
        Ok(c) => Ok(c@),
        Err(e) => Err(e),
    }
}

/// The color that the literal `b` (`#` and 6 or 8 hexadecimal digits, the
/// digits optionally led by `+`) denotes; 6 digits give an opaque color.
pub open spec fn spec_decode_hex_literal(b: Seq<u8>) -> Option<Color> {
    if b.len() >= 1 && b[0] == 35 {
        let s: int = if b.len() >= 2 && b[1] == 43 { 2 } else { 1 };
        let k = b.len() - s;
        let v = hex_value(b, s, k);
        if k > 0 && hex_run(b, s) == k && v <= u32::MAX {
            if b.len() - 1 == 6 {
                Some(color_from_u32((v * 256 + 255) as u32))
            } else if b.len() - 1 == 8 {
                Some(color_from_u32(v as u32))
            } else {
                None
            }
        } else {
            None
        }
    } else {
        None
    }
}

// ---- reading ----

fn rgba_open() -> (s: &'static str)
    ensures
        s.spec_bytes() == rgba_open_bytes(),
{
    let s = "rgba(";
    proof {
        reveal_strlit("rgba(");
        broadcast use vstd::string::is_ascii_spec_bytes;

        assert(vstd::string::is_ascii(s));
        assert(s.spec_bytes() =~= rgba_open_bytes());
    }
    s
}

fn rgb_open() -> (s: &'static str)
    ensures
        s.spec_bytes() == rgb_open_bytes(),
{
    let s = "rgb(";
    proof {
        reveal_strlit("rgb(");
        broadcast use vstd::string::is_ascii_spec_bytes;

        assert(vstd::string::is_ascii(s));
        assert(s.spec_bytes() =~= rgb_open_bytes());
    }
    s
}

fn hash_sign() -> (s: &'static str)
    ensures
        s.spec_bytes() == hash_bytes(),
{
    let s = "#";
    proof {
        reveal_strlit("#");
        broadcast use vstd::string::is_ascii_spec_bytes;

        assert(vstd::string::is_ascii(s));
        assert(s.spec_bytes() =~= hash_bytes());
    }
    s
}

fn comma_sign() -> (s: &'static str)
    ensures
        s.spec_bytes() == comma_bytes(),
{
    let s = ",";
    proof {
        reveal_strlit(",");
        broadcast use vstd::string::is_ascii_spec_bytes;

        assert(vstd::string::is_ascii(s));
        assert(s.spec_bytes() =~= comma_bytes());
    }
    s
}

fn close_paren() -> (s: &'static str)
    ensures
        s.spec_bytes() == close_bytes(),
{
    let s = ")";
    proof {
        reveal_strlit(")");
        broadcast use vstd::string::is_ascii_spec_bytes;

        assert(vstd::string::is_ascii(s));
        assert(s.spec_bytes() =~= close_bytes());
    }
    s
}

/// `lit` occurs in `b` at `pos`.
fn starts_with_at(b: &[u8], pos: usize, lit: &[u8]) -> (r: bool)
    ensures
        r == has_prefix(b@, pos as int, lit@),
{
    if pos > b.len() || lit.len() > b.len() - pos {
        return false;
    }
    let mut i: usize = 0;
    while i < lit.len()
        invariant
            pos + lit.len() <= b.len(),
            i <= lit.len(),
            forall|j: int| 0 <= j < i ==> b@[pos + j] == lit@[j],
        decreases lit.len() - i,
    {
        if b[pos + i] != lit[i] {
            assert(b@.subrange(pos as int, pos + lit.len())[i as int] != lit@[i as int]);
            return false;
        }
        i += 1;
    }
    assert(b@.subrange(pos as int, pos + lit.len()) =~= lit@);
    true
}

fn skip_spaces(b: &[u8], pos: &mut usize)
    requires
        *old(pos) <= b.len(),
    ensures
        *final(pos) == after_spaces(b@, *old(pos) as int),
        *final(pos) <= b.len(),
{
    let ghost start = *pos;
    while *pos < b.len() && b[*pos] == 32
        invariant
            start <= *pos <= b.len(),
            after_spaces(b@, start as int) == after_spaces(b@, *pos as int),
        decreases b.len() - *pos,
    {
        *pos += 1;
    }
}

fn read_prefix(b: &[u8], pos: &mut usize, lit: &[u8]) -> (r: Result<(), ColorParseError>)
    ensures
        r == spec_parse_prefix(b@, *old(pos) as int, lit@).0,
        *final(pos) == spec_parse_prefix(b@, *old(pos) as int, lit@).1,
{
    if starts_with_at(b, *pos, lit) {
        assert(lit@.len() == lit.len() && b@.len() == b.len());
        assert(*pos + lit.len() <= b.len());
        *pos += lit.len();
        Ok(())
    } else {
        Err(ColorParseError::MissingPrefix)
    }
}

fn read_comma(b: &[u8], pos: &mut usize) -> (r: Result<(), ColorParseError>)
    requires
        *old(pos) <= b.len(),
    ensures
        r == spec_parse_comma(b@, *old(pos) as int).0,
        *final(pos) == spec_parse_comma(b@, *old(pos) as int).1,
        *final(pos) <= b.len(),
{
    skip_spaces(b, pos);
    read_prefix(b, pos, comma_sign().as_bytes())?;
    skip_spaces(b, pos);
    Ok(())
}

fn read_int(b: &[u8], pos: &mut usize) -> (r: Result<u8, ColorParseError>)
    requires
        *old(pos) <= b.len(),
    ensures
        r == spec_parse_int(b@, *old(pos) as int).0,
        *final(pos) == spec_parse_int(b@, *old(pos) as int).1,
        *final(pos) <= b.len(),
{
    let start = *pos;
    let mut acc: u16 = 0;
    while *pos < b.len() && 48 <= b[*pos] && b[*pos] <= 57
        invariant
            start <= *pos <= b.len(),
            dec_run(b@, start as int) == (*pos - start) + dec_run(b@, *pos as int),
            acc == if dec_value(b@, start as int, *pos - start) <= 255 {
                dec_value(b@, start as int, *pos - start)
            } else {
                256
            },
        decreases b.len() - *pos,
    {
        let d = (b[*pos] - 48) as u16;
        assert(dec_value(b@, start as int, *pos + 1 - start) == dec_value(
            b@,
            start as int,
            *pos - start,
        ) * 10 + d);
        acc = if acc > 255 {
            256
        } else if acc * 10 + d > 255 {
            256
        } else {
            acc * 10 + d
        };
        *pos += 1;
    }
    if *pos > start && acc <= 255 {
        Ok(acc as u8)
    } else {
        Err(ColorParseError::ExpectedInteger)
    }
}

fn hex_digit(c: u8) -> (v: u64)
    requires
        is_hex_digit(c),
    ensures
        v == hex_digit_value(c),
{
    if 48 <= c && c <= 57 {
        (c - 48) as u64
    } else if 97 <= c && c <= 102 {
        (c - 87) as u64
    } else {
        (c - 55) as u64
    }
}

proof fn lemma_shift_in_alpha(x: u32)
    by (bit_vector)
    requires
        x < 0x1000000,
    ensures
        (x << 8u32) | 0xffu32 == (x * 256 + 255) as u32,
{
}

fn read_hex(b: &[u8], pos: &mut usize) -> (r: Result<Color, ColorParseError>)
    requires
        *old(pos) <= b.len(),
        hex_in_bounds(b@, *old(pos) as int),
    ensures
        r == spec_parse_hex(b@, *old(pos) as int).0,
        *final(pos) == spec_parse_hex(b@, *old(pos) as int).1,
        *final(pos) <= b.len(),
{
    read_prefix(b, pos, hash_sign().as_bytes())?;
    let start = *pos;
    let mut acc: u64 = 0;
    while *pos < b.len() && (48 <= b[*pos] && b[*pos] <= 57 || 97 <= b[*pos] && b[*pos] <= 102
        || 65 <= b[*pos] && b[*pos] <= 70)
        invariant
            start <= *pos <= b.len(),
            hex_run(b@, start as int) == (*pos - start) + hex_run(b@, *pos as int),
            hex_value(b@, start as int, *pos - start) < hex_cap(*pos - start),
            acc == if hex_value(b@, start as int, *pos - start) <= u32::MAX {
                hex_value(b@, start as int, *pos - start)
            } else {
                0x1_0000_0000
            },
        decreases b.len() - *pos,
    {
        let d = hex_digit(b[*pos]);
        assert(hex_value(b@, start as int, *pos + 1 - start) == hex_value(
            b@,
            start as int,
            *pos - start,
        ) * 16 + d);
        acc = if acc > 0xffff_ffff {
            0x1_0000_0000
        } else if acc * 16 + d > 0xffff_ffff {
            0x1_0000_0000
        } else {
            acc * 16 + d
        };
        *pos += 1;
    }
    let n = *pos - start;
    if n == 0 || acc > 0xffff_ffff {
        return Err(ColorParseError::ExpectedHexNumber);
    }
    let value: u32 = if n == 6 {
        assert(acc < 0x1000000) by {
            reveal_with_fuel(hex_cap, 7);
        }
        proof {
            lemma_shift_in_alpha(acc as u32);
        }
        ((acc as u32) << 8u32) | 0xff
    } else if n == 8 {
        acc as u32
    } else {
        return Err(ColorParseError::WrongHexDigitCount);
    };
    *pos += n;
    Ok(Color::from_u32(value))
}


fn read_triple(b: &[u8], pos: &mut usize) -> (r: Result<(u8, u8, u8), ColorParseError>)
    requires
        *old(pos) <= b.len(),
    ensures
        r == spec_parse_triple(b@, *old(pos) as int).0,
        *final(pos) == spec_parse_triple(b@, *old(pos) as int).1,
        *final(pos) <= b.len(),
{
    let r = read_int(b, pos)?;
    read_comma(b, pos)?;
    let g = read_int(b, pos)?;
    read_comma(b, pos)?;
    let bl = read_int(b, pos)?;
    Ok((r, g, bl))
}

fn read_rgb(b: &[u8], pos: &mut usize) -> (r: Result<Color, ColorParseError>)
    requires
        *old(pos) <= b.len(),
    ensures
        r == spec_parse_rgb(b@, *old(pos) as int).0,
        *final(pos) == spec_parse_rgb(b@, *old(pos) as int).1,
        *final(pos) <= b.len(),
{
    read_prefix(b, pos, rgb_open().as_bytes())?;
    skip_spaces(b, pos);
    let (r, g, bl) = read_triple(b, pos)?;
    skip_spaces(b, pos);
    read_prefix(b, pos, close_paren().as_bytes())?;
    Ok(Color::new(r, g, bl, 255))
}

fn read_decimal(b: &[u8], pos: &mut usize) -> (r: Result<Vec<u8>, ColorParseError>)
    requires
        *old(pos) <= b.len(),
    ensures
        match (r, spec_parse_decimal(b@, *old(pos) as int).0) {
            (Ok(d), Ok(sd)) => d@ == sd,
            (Err(e), Err(se)) => e == se,
            _ => false,
        },
        *final(pos) == spec_parse_decimal(b@, *old(pos) as int).1,
        *final(pos) <= b.len(),
{
    let start = *pos;
    let mut digits: Vec<u8> = Vec::new();
    let mut dot_count: usize = 0;
    while *pos < b.len() && (48 <= b[*pos] && b[*pos] <= 57 || b[*pos] == 46)
        invariant
            start <= *pos <= b.len(),
            decimal_run(b@, start as int) == (*pos - start) + decimal_run(b@, *pos as int),
            dot_count == dots(b@, start as int, *pos - start),
            dot_count <= *pos - start,
            digits@ == b@.subrange(start as int, *pos as int),
        decreases b.len() - *pos,
    {
        if b[*pos] == 46 {
            dot_count += 1;
        }
        digits.push(b[*pos]);
        *pos += 1;
        assert(digits@ =~= b@.subrange(start as int, *pos as int));
    }
    if *pos - start > dot_count && dot_count <= 1 {
        Ok(digits)
    } else {
        Err(ColorParseError::ExpectedFloat)
    }
}

fn color_at(b: &[u8], pos: usize) -> (r: (Result<ColorSyntax, ColorParseError>, usize))
    requires
        pos <= b.len(),
        color_in_bounds(b@, pos as int),
    ensures
        syntax_result(r.0) == spec_parse_color(b@, pos as int).0,
        r.1 == spec_parse_color(b@, pos as int).1,
        r.1 <= b.len(),
    decreases b.len() - pos, 1nat,
{
    if starts_with_at(b, pos, rgba_open().as_bytes()) {
        rgba_at(b, pos)
    } else if starts_with_at(b, pos, rgb_open().as_bytes()) {
        let mut p = pos;
        match read_rgb(b, &mut p) {
            Ok(c) => (Ok(ColorSyntax { r: c.r, g: c.g, b: c.b, alpha: Alpha::Byte(c.a) }), p),
            Err(e) => (Err(e), p),
        }
    } else if starts_with_at(b, pos, hash_sign().as_bytes()) {
        let mut p = pos;
        match read_hex(b, &mut p) {
            Ok(c) => (Ok(ColorSyntax { r: c.r, g: c.g, b: c.b, alpha: Alpha::Byte(c.a) }), p),
            Err(e) => (Err(e), p),
        }
    } else {
        (Err(ColorParseError::InvalidFormat), pos)
    }
}

fn rgba_at(b: &[u8], pos: usize) -> (r: (Result<ColorSyntax, ColorParseError>, usize))
    requires
        pos <= b.len(),
        rgba_in_bounds(b@, pos as int),
    ensures
        syntax_result(r.0) == spec_parse_rgba(b@, pos as int).0,
        r.1 == spec_parse_rgba(b@, pos as int).1,
        r.1 <= b.len(),
    decreases b.len() - pos, 0nat,
{
    let mut p = pos;
    if read_prefix(b, &mut p, rgba_open().as_bytes()).is_err() {
        return (Err(ColorParseError::MissingPrefix), pos);
    }
    skip_spaces(b, &mut p);
    let (c, p2) = color_at(b, p);
    let mut q = p2;
    let (r, g, bl) = match c {
        Ok(cs) => (cs.r, cs.g, cs.b),
        Err(_) => match read_triple(b, &mut q) {
            Ok(t) => t,
            Err(e) => {
                return (Err(e), q);
            },
        },
    };
    match read_comma(b, &mut q) {
        Ok(_) => {},
        Err(e) => {
            return (Err(e), q);
        },
    }
    let alpha = match read_decimal(b, &mut q) {
        Ok(d) => d,
        Err(e) => {
            return (Err(e), q);
        },
    };
    skip_spaces(b, &mut q);
    if read_prefix(b, &mut q, close_paren().as_bytes()).is_err() {
        return (Err(ColorParseError::MissingPrefix), q);
    }
    (Ok(ColorSyntax { r, g, b: bl, alpha: Alpha::Decimal(alpha) }), q)
}

// ---- the public readers: `*pos` is a byte position in `source` ----

/// Moves `*pos` past the spaces there.
pub fn parse_whitespace(source: &str, pos: &mut usize)
    requires
        *old(pos) <= source.spec_bytes().len(),
    ensures
        *final(pos) == after_spaces(source.spec_bytes(), *old(pos) as int),
{
    skip_spaces(source.as_bytes(), pos)
}

/// Reads `prefix` at `*pos`.
pub fn parse_prefix(source: &str, pos: &mut usize, prefix: &str) -> (r: Result<(), ColorParseError>)
    ensures
        r == spec_parse_prefix(source.spec_bytes(), *old(pos) as int, prefix.spec_bytes()).0,
        *final(pos) == spec_parse_prefix(source.spec_bytes(), *old(pos) as int, prefix.spec_bytes()).1,
{
    read_prefix(source.as_bytes(), pos, prefix.as_bytes())
}

/// Reads a comma and the spaces around it.
pub fn parse_comma(source: &str, pos: &mut usize) -> (r: Result<(), ColorParseError>)
    requires
        *old(pos) <= source.spec_bytes().len(),
    ensures
        r == spec_parse_comma(source.spec_bytes(), *old(pos) as int).0,
        *final(pos) == spec_parse_comma(source.spec_bytes(), *old(pos) as int).1,
{
    read_comma(source.as_bytes(), pos)
}

/// Reads a decimal integer from 0 to 255.
pub fn parse_int(source: &str, pos: &mut usize) -> (r: Result<u8, ColorParseError>)
    requires
        *old(pos) <= source.spec_bytes().len(),
    ensures
        r == spec_parse_int(source.spec_bytes(), *old(pos) as int).0,
        *final(pos) == spec_parse_int(source.spec_bytes(), *old(pos) as int).1,
{
    read_int(source.as_bytes(), pos)
}

/// Reads `#RRGGBB` or `#RRGGBBAA`.
pub fn parse_hex(source: &str, pos: &mut usize) -> (r: Result<Color, ColorParseError>)
    requires
        *old(pos) <= source.spec_bytes().len(),
        hex_in_bounds(source.spec_bytes(), *old(pos) as int),
    ensures
        r == spec_parse_hex(source.spec_bytes(), *old(pos) as int).0,
        *final(pos) == spec_parse_hex(source.spec_bytes(), *old(pos) as int).1,
{
    read_hex(source.as_bytes(), pos)
}

/// Reads `rgb(r, g, b)`.
pub fn parse_rgb(source: &str, pos: &mut usize) -> (r: Result<Color, ColorParseError>)
    requires
        *old(pos) <= source.spec_bytes().len(),
    ensures
        r == spec_parse_rgb(source.spec_bytes(), *old(pos) as int).0,
        *final(pos) == spec_parse_rgb(source.spec_bytes(), *old(pos) as int).1,
{
    read_rgb(source.as_bytes(), pos)
}

/// Reads `rgba(<color>, alpha)` or `rgba(r, g, b, alpha)`.
pub fn parse_rgba(source: &str, pos: &mut usize) -> (r: Result<ColorSyntax, ColorParseError>)
    requires
        *old(pos) <= source.spec_bytes().len(),
        rgba_in_bounds(source.spec_bytes(), *old(pos) as int),
    ensures
        syntax_result(r) == spec_parse_rgba(source.spec_bytes(), *old(pos) as int).0,
        *final(pos) == spec_parse_rgba(source.spec_bytes(), *old(pos) as int).1,
{
    let (r, p) = rgba_at(source.as_bytes(), *pos);
    *pos = p;
    r
}

/// Reads any color text.
pub fn parse_color(source: &str, pos: &mut usize) -> (r: Result<ColorSyntax, ColorParseError>)
    requires
        *old(pos) <= source.spec_bytes().len(),
        color_in_bounds(source.spec_bytes(), *old(pos) as int),
    ensures
        syntax_result(r) == spec_parse_color(source.spec_bytes(), *old(pos) as int).0,
        *final(pos) == spec_parse_color(source.spec_bytes(), *old(pos) as int).1,
{
    let (r, p) = color_at(source.as_bytes(), *pos);
    *pos = p;
    r
}

/// The color that a `#RRGGBB` or `#RRGGBBAA` literal denotes.
pub fn decode_hex_literal(literal: &str) -> (c: Option<Color>)
    ensures
        c == spec_decode_hex_literal(literal.spec_bytes()),
{
    let b = literal.as_bytes();
    if b.len() < 1 || b[0] != 35 {
        return None;
    }
    let start: usize = if b.len() >= 2 && b[1] == 43 { 2 } else { 1 };
    let mut pos = start;
    let mut acc: u64 = 0;
    while pos < b.len() && (48 <= b[pos] && b[pos] <= 57 || 97 <= b[pos] && b[pos] <= 102
        || 65 <= b[pos] && b[pos] <= 70)
        invariant
            start <= pos <= b.len(),
            hex_run(b@, start as int) == (pos - start) + hex_run(b@, pos as int),
            hex_value(b@, start as int, pos - start) < hex_cap(pos - start),
            acc == if hex_value(b@, start as int, pos - start) <= u32::MAX {
                hex_value(b@, start as int, pos - start)
            } else {
                0x1_0000_0000
            },
        decreases b.len() - pos,
    {
        let d = hex_digit(b[pos]);
        assert(hex_value(b@, start as int, pos + 1 - start) == hex_value(
            b@,
            start as int,
            pos - start,
        ) * 16 + d);
        acc = if acc > 0xffff_ffff {
            0x1_0000_0000
        } else if acc * 16 + d > 0xffff_ffff {
            0x1_0000_0000
        } else {
            acc * 16 + d
        };
        pos += 1;
    }
    if pos != b.len() || pos == start || acc > 0xffff_ffff {
        return None;
    }
    proof {
        assert(hex_run(b@, start as int) == b.len() - start);
    }
    if b.len() - 1 == 6 {
        assert(acc < 0x1000000) by {
            reveal_with_fuel(hex_cap, 7);
        }
        proof {
            lemma_shift_in_alpha(acc as u32);
        }
        Some(Color::from_u32(((acc as u32) << 8u32) | 0xff))
    } else if b.len() - 1 == 8 {
        Some(Color::from_u32(acc as u32))
    } else {
        None
    }
}

} // verus!
