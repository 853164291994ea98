//! Hex color rendering, base64 transport encoding, and the data URL built
//! around an extracted icon.

use vstd::prelude::*;

verus! {

/// The character for a single uppercase hexadecimal digit.
pub open spec fn hex_digit_upper(d: int) -> char {
    if d == 0 {
        '0'
    } else if d == 1 {
        '1'
    } else if d == 2 {
        '2'
    } else if d == 3 {
        '3'
    } else if d == 4 {
        '4'
    } else if d == 5 {
        '5'
    } else if d == 6 {
        '6'
    } else if d == 7 {
        '7'
    } else if d == 8 {
        '8'
    } else if d == 9 {
        '9'
    } else if d == 10 {
        'A'
    } else if d == 11 {
        'B'
    } else if d == 12 {
        'C'
    } else if d == 13 {
        'D'
    } else if d == 14 {
        'E'
    } else {
        'F'
    }
}

/// The two uppercase hex digits of a byte.
pub open spec fn hex_byte_of(b: int) -> Seq<char> {
    seq![hex_digit_upper(b / 16), hex_digit_upper(b % 16)]
}

/// The `#RRGGBB` rendering of a color.
pub open spec fn hex_color_of(red: int, green: int, blue: int) -> Seq<char> {
    seq!['#'] + hex_byte_of(red) + hex_byte_of(green) + hex_byte_of(blue)
}

fn hex_digit_str(d: u8) -> (r: &'static str)
    requires
        d < 16,
    ensures
        r@ == seq![hex_digit_upper(d as int)],
{
    proof {
        reveal_strlit("0");
        reveal_strlit("1");
        reveal_strlit("2");
        reveal_strlit("3");
        reveal_strlit("4");
        reveal_strlit("5");
        reveal_strlit("6");
        reveal_strlit("7");
        reveal_strlit("8");
        reveal_strlit("9");
        reveal_strlit("A");
        reveal_strlit("B");
        reveal_strlit("C");
        reveal_strlit("D");
        reveal_strlit("E");
        reveal_strlit("F");
    }
    let r = match d {
        0 => "0",
        1 => "1",
        2 => "2",
        3 => "3",
        4 => "4",
        5 => "5",
        6 => "6",
        7 => "7",
        8 => "8",
        9 => "9",
        10 => "A",
        11 => "B",
        12 => "C",
        13 => "D",
        14 => "E",
        _ => "F",
    };
    proof {
        assert(r@ =~= seq![hex_digit_upper(d as int)]);
    }
    r
}

/// Appends the two uppercase hex digits of `b` to `out`.
fn push_hex_byte(out: &mut String, b: u8)
    ensures
        final(out)@ == old(out)@ + hex_byte_of(b as int),
{
    out.append(hex_digit_str(b / 16));
    out.append(hex_digit_str(b % 16));
    proof {
        assert(final(out)@ =~= old(out)@ + hex_byte_of(b as int));
    }
}

/// Renders color components as `#RRGGBB` with uppercase digits.
pub fn rgb_to_hex_color(red: u8, green: u8, blue: u8) -> (r: String)
    ensures
        r@ == hex_color_of(red as int, green as int, blue as int),
{
    let mut out = String::from_str("#");
    push_hex_byte(&mut out, red);
    push_hex_byte(&mut out, green);
    push_hex_byte(&mut out, blue);
    proof {
        reveal_strlit("#");
        assert(out@ =~= hex_color_of(red as int, green as int, blue as int));
    }
    out
}

/// The standard (padded) base64 rendering of a byte sequence.
pub uninterp spec fn base64_std_of(bytes: Seq<u8>) -> Seq<char>;

/// Relies on `base64::engine::general_purpose::STANDARD.encode`: standard
/// alphabet with padding, so four output characters stand for every three
/// input bytes begun; the rendering is a function of the bytes alone.  The
/// length bound keeps the encoder's internal size computation from
/// overflowing.
#[verifier::external_body]
pub(crate) fn base64_encode_standard(bytes: &Vec<u8>) -> (r: String)
    requires
        bytes@.len() <= 0x1000_0000_0000_0000,
    ensures
        r@ == base64_std_of(bytes@),
        r@.len() == 4 * ((bytes@.len() + 2) / 3),
{
    <base64::engine::GeneralPurpose as base64::Engine>::encode(
        &base64::engine::general_purpose::STANDARD,
        bytes,
    )
}

/// The data URL wrapped around a PNG rendering of an icon.
pub open spec fn png_data_url_of(png: Seq<u8>) -> Seq<char> {
    "data:image/png;base64,"@ + base64_std_of(png)
}

/// Builds the `data:image/png;base64,` URL for PNG bytes.
pub fn png_data_url(png: &Vec<u8>) -> (r: String)
    requires
        png@.len() <= 0x1000_0000_0000_0000,
    ensures
        r@ == png_data_url_of(png@),
{
    let encoded = base64_encode_standard(png);
    let r = String::from_str("data:image/png;base64,").concat(encoded.as_str());
    r
}

} // verus!
