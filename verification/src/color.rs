//! Hex colors for shift types: a validated six-digit hex value without the
//! leading `#`, with an integer luminance rule for text contrast and the
//! default palette for the fixed shift codes.

use crate::strutil::{str_eq, strip_and_upper, strip_hashes, upper_seq};
use vstd::prelude::*;
use vstd::string::*;

verus! {

/// An upper-case hexadecimal digit.
pub open spec fn is_hex_digit(c: char) -> bool {
    ('0' <= c <= '9') || ('A' <= c <= 'F')
}

/// Value of an upper-case hexadecimal digit.
pub open spec fn hex_val(c: char) -> int {
    if '0' <= c <= '9' {
        c as int - '0' as int
    } else if 'A' <= c <= 'F' {
        c as int - 'A' as int + 10
    } else {
        0
    }
}

/// A well-formed color value: exactly six upper-case hex digits.
pub open spec fn color_wf(s: Seq<char>) -> bool {
    s.len() == 6 && forall|i: int| 0 <= i < 6 ==> is_hex_digit(#[trigger] s[i])
}

/// The byte encoded by the two hex digits at positions `i` and `i + 1`.
pub open spec fn hex_byte(s: Seq<char>, i: int) -> int {
    16 * hex_val(s[i]) + hex_val(s[i + 1])
}

/// The integer luminance rule for light colors: the fixed-point weighted sum
/// `299 R + 587 G + 114 B` (luminance in thousandths) exceeds 186 000.
pub open spec fn is_light_color(s: Seq<char>) -> bool {
    299 * hex_byte(s, 0) + 587 * hex_byte(s, 2) + 114 * hex_byte(s, 4) > 186000
}

/// The default palette: the hex value assigned to each fixed shift code,
/// white for anything unknown.
pub open spec fn default_hex_for(code: Seq<char>) -> Seq<char> {
    if code == "101"@ || code == "6101"@ || code == "7101"@ {
        "FFD9E6"@
    } else if code == "102"@ || code == "6102"@ || code == "7102"@ {
        "FFE6F0"@
    } else if code == "111"@ || code == "6111"@ || code == "7111"@ {
        "D9E6FF"@
    } else if code == "112"@ || code == "6112"@ || code == "7112"@ {
        "E6F0FF"@
    } else if code == "121"@ || code == "6121"@ || code == "7121"@ {
        "FFE6CC"@
    } else if code == "X_AM"@ || code == "X_PM"@ {
        "D9F2D9"@
    } else if code == "X_10"@ {
        "E6D9FF"@
    } else if code == "AG"@ {
        "FF4444"@
    } else if code == "CN"@ || code == "JC"@ {
        "FFFFCC"@
    } else if code == "RH"@ {
        "CCCCCC"@
    } else if code == "CH"@ {
        "D5D5D5"@
    } else if code == "RR"@ {
        "C9C9C9"@
    } else if code == "CV"@ {
        "96D1CC"@
    } else if code == "ZM"@ {
        "F0F0F0"@
    } else {
        "FFFFFF"@
    }
}

/// A hex color, normalised on construction: leading `#` stripped, letters
/// upper-cased.
#[derive(Debug, Clone, PartialEq, Eq, Hash)]
pub struct Color {
    hex: String,
}

impl View for Color {
    type V = Seq<char>;

    closed spec fn view(&self) -> Seq<char> {
        self.hex@
    }
}

/// Rejection of a malformed color value.
#[derive(Debug, Clone, Copy, PartialEq, Eq, Structural)]
pub enum ColorError {
    /// The normalised value does not have six characters; carries its length.
    InvalidLength(usize),
    /// The normalised value holds a character that is no hex digit.
    InvalidCharacters,
}

/// Whether `c` is an upper-case hexadecimal digit.
fn hex_digit(c: char) -> (r: bool)
    ensures
        r == is_hex_digit(c),
{
    ('0' <= c && c <= '9') || ('A' <= c && c <= 'F')
}

/// Value of an upper-case hexadecimal digit.
fn hex_digit_val(c: char) -> (r: u8)
    requires
        is_hex_digit(c),
    ensures
        r as int == hex_val(c),
        r <= 15,
{
    if '0' <= c && c <= '9' {
        (c as u8) - 48
    } else {
        (c as u8) - 65 + 10
    }
}

impl Color {
    /// Normalise `hex` (strip leading `#`, upper-case) and accept it only as
    /// six hex digits; a wrong length is reported before wrong characters.
    pub fn new(hex: &str) -> (r: Result<Color, ColorError>)
        ensures
            r is Ok <==> color_wf(upper_seq(strip_hashes(hex@))),
            r matches Ok(c) ==> c@ == upper_seq(strip_hashes(hex@)),
            r matches Err(e) ==> e == (if upper_seq(strip_hashes(hex@)).len() != 6 {
                ColorError::InvalidLength(upper_seq(strip_hashes(hex@)).len() as usize)
            } else {
                ColorError::InvalidCharacters
            }),
    {
        let norm = strip_and_upper(hex);
        let n = norm.as_str().unicode_len();
        if n != 6 {
            return Err(ColorError::InvalidLength(n));
        }
        let mut i: usize = 0;
        while i < 6
            invariant
                norm@ == upper_seq(strip_hashes(hex@)),
                norm@.len() == 6,
                0 <= i <= 6,
                forall|j: int| 0 <= j < i ==> is_hex_digit(#[trigger] norm@[j]),
            decreases 6 - i,
        {
            if !hex_digit(norm.as_str().get_char(i)) {
                return Err(ColorError::InvalidCharacters);
            }
            i = i + 1;
        }
        Ok(Color { hex: norm })
    }

    /// Normalise `hex` without validating it.
    pub fn new_unchecked(hex: &str) -> (r: Color)
        ensures
            r@ == upper_seq(strip_hashes(hex@)),
    {
        Color { hex: strip_and_upper(hex) }
    }

    /// The hex value, without `#`.
    pub fn hex(&self) -> (r: &str)
        ensures
            r@ == self@,
    {
        self.hex.as_str()
    }

    /// The CSS form of the color: the hex value behind `#`.
    pub fn css(&self) -> (r: String)
        ensures
            r@ == "#"@ + self@,
    {
        let mut s = String::from_str("#");
        s.append(self.hex.as_str());
        s
    }

    /// The red, green and blue components.
    pub fn rgb(&self) -> (r: (u8, u8, u8))
        requires
            color_wf(self@),
        ensures
            r.0 as int == hex_byte(self@, 0),
            r.1 as int == hex_byte(self@, 2),
            r.2 as int == hex_byte(self@, 4),
    {
        let s = self.hex.as_str();
        let red = 16 * hex_digit_val(s.get_char(0)) + hex_digit_val(s.get_char(1));
        let green = 16 * hex_digit_val(s.get_char(2)) + hex_digit_val(s.get_char(3));
        let blue = 16 * hex_digit_val(s.get_char(4)) + hex_digit_val(s.get_char(5));
        (red, green, blue)
    }

    /// Whether the color is light, by the fixed-point luminance rule.
    pub fn is_light(&self) -> (r: bool)
        requires
            color_wf(self@),
        ensures
            r == is_light_color(self@),
    {
        let (red, green, blue) = self.rgb();
        299 * (red as u32) + 587 * (green as u32) + 114 * (blue as u32) > 186000
    }

    /// Black for a light background, white for a dark one.
    pub fn text_color(&self) -> (r: &'static str)
        requires
            color_wf(self@),
        ensures
            is_light_color(self@) ==> r@ == "#000000"@,
            !is_light_color(self@) ==> r@ == "#FFFFFF"@,
    {
        if self.is_light() {
            "#000000"
        } else {
            "#FFFFFF"
        }
    }

    /// The default palette color for a shift code.
    pub fn for_shift_code(code: &str) -> (r: Color)
        ensures
            r@ == default_hex_for(code@),
            color_wf(r@),
    {
        let hex: &str = if str_eq(code, "101") || str_eq(code, "6101") || str_eq(code, "7101") {
            "FFD9E6"
        } else if str_eq(code, "102") || str_eq(code, "6102") || str_eq(code, "7102") {
            "FFE6F0"
        } else if str_eq(code, "111") || str_eq(code, "6111") || str_eq(code, "7111") {
            "D9E6FF"
        } else if str_eq(code, "112") || str_eq(code, "6112") || str_eq(code, "7112") {
            "E6F0FF"
        } else if str_eq(code, "121") || str_eq(code, "6121") || str_eq(code, "7121") {
            "FFE6CC"
        } else if str_eq(code, "X_AM") || str_eq(code, "X_PM") {
            "D9F2D9"
        } else if str_eq(code, "X_10") {
            "E6D9FF"
        } else if str_eq(code, "AG") {
            "FF4444"
        } else if str_eq(code, "CN") || str_eq(code, "JC") {
            "FFFFCC"
        } else if str_eq(code, "RH") {
            "CCCCCC"
        } else if str_eq(code, "CH") {
            "D5D5D5"
        } else if str_eq(code, "RR") {
            "C9C9C9"
        } else if str_eq(code, "CV") {
            "96D1CC"
        } else if str_eq(code, "ZM") {
            "F0F0F0"
        } else {
            "FFFFFF"
        };
        proof {
            reveal_strlit("FFD9E6");
            reveal_strlit("FFE6F0");
            reveal_strlit("D9E6FF");
            reveal_strlit("E6F0FF");
            reveal_strlit("FFE6CC");
            reveal_strlit("D9F2D9");
            reveal_strlit("E6D9FF");
            reveal_strlit("FF4444");
            reveal_strlit("FFFFCC");
            reveal_strlit("CCCCCC");
            reveal_strlit("D5D5D5");
            reveal_strlit("C9C9C9");
            reveal_strlit("96D1CC");
            reveal_strlit("F0F0F0");
            reveal_strlit("FFFFFF");
            assert(color_wf(hex@));
        }
        Color { hex: String::from_str(hex) }
    }
}

impl Default for Color {
    /// White.
    fn default() -> (r: Color)
        ensures
            r@ == "FFFFFF"@,
    {
        Color { hex: String::from_str("FFFFFF") }
    }
}

} // verus!
