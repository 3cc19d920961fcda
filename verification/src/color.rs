//! Additive RGB color arithmetic.
//!
//! Components are unclamped fixed-point scalars: they may exceed 1.0 or go
//! negative during shading.  Clamping to the byte range happens only at
//! serialization time.

use vstd::prelude::*;
use vstd::string::StringExecFns;

use crate::fixed::EPSILON;
use crate::fixed::SCALE;
use crate::fixed::abs_int;
use crate::fixed::fx_add;
use crate::fixed::fx_mul;
use crate::fixed::fx_sub;
use crate::fixed::spec_add;
use crate::fixed::spec_mul;
use crate::fixed::spec_sub;

verus! {

/// An RGB color with unclamped fixed-point components.
#[derive(Clone, Copy, Debug, PartialEq, Eq, Structural)]
pub struct RGB {
    /// Red component; 0 is none, `SCALE` is full.
    pub red: i64,
    /// Green component; 0 is none, `SCALE` is full.
    pub green: i64,
    /// Blue component; 0 is none, `SCALE` is full.
    pub blue: i64,
}

/// Componentwise sum of two colors.
pub open spec fn spec_rgb_add(a: RGB, b: RGB) -> RGB {
    RGB {
        red: spec_add(a.red as int, b.red as int) as i64,
        green: spec_add(a.green as int, b.green as int) as i64,
        blue: spec_add(a.blue as int, b.blue as int) as i64,
    }
}

/// Componentwise difference of two colors.
pub open spec fn spec_rgb_sub(a: RGB, b: RGB) -> RGB {
    RGB {
        red: spec_sub(a.red as int, b.red as int) as i64,
        green: spec_sub(a.green as int, b.green as int) as i64,
        blue: spec_sub(a.blue as int, b.blue as int) as i64,
    }
}

/// A color with every component scaled by a fixed-point factor.
pub open spec fn spec_rgb_scale(a: RGB, s: int) -> RGB {
    RGB {
        red: spec_mul(a.red as int, s) as i64,
        green: spec_mul(a.green as int, s) as i64,
        blue: spec_mul(a.blue as int, s) as i64,
    }
}

/// Hadamard (componentwise) product of two colors, used to combine a light's
/// intensity with a surface color.
pub open spec fn spec_rgb_mul(a: RGB, b: RGB) -> RGB {
    RGB {
        red: spec_mul(a.red as int, b.red as int) as i64,
        green: spec_mul(a.green as int, b.green as int) as i64,
        blue: spec_mul(a.blue as int, b.blue as int) as i64,
    }
}

/// Two colors agree when every component differs by less than `EPSILON`.
pub open spec fn spec_rgb_approx(a: RGB, b: RGB) -> bool {
    &&& abs_int(a.red - b.red) < EPSILON as int
    &&& abs_int(a.green - b.green) < EPSILON as int
    &&& abs_int(a.blue - b.blue) < EPSILON as int
}

/// One color component scaled to the byte range: 255 times its real value,
/// rounded down, clamped into `[0, 255]`.
pub open spec fn spec_clamp(c: int) -> int {
    if 255 * c >= 255 * (SCALE as int) {
        255
    } else if 255 * c < 0 {
        0
    } else {
        (255 * c) / (SCALE as int)
    }
}

/// One byte component turned back into a fixed-point color component,
/// rounded to the nearest unit.
pub open spec fn spec_from_byte(n: int) -> int {
    (n * (SCALE as int) + 127) / 255
}

/// The decimal digit characters.
pub open spec fn digit_char(d: int) -> char {
    if d == 0 {
        '0'
    } else if d == 1 {
        '1'
    } else if d == 2 {
        '2'
    } else if d == 3 {
        '3'
    } else if d == 4 {
        '4'
    } else if d == 5 {
        '5'
    } else if d == 6 {
        '6'
    } else if d == 7 {
        '7'
    } else if d == 8 {
        '8'
    } else {
        '9'
    }
}

/// The decimal notation of a nonnegative number, without leading zeros.
pub open spec fn spec_dec_string(n: int) -> Seq<char>
    decreases n,
{
    if n < 10 {
        seq![digit_char(n)]
    } else {
        spec_dec_string(n / 10).push(digit_char(n % 10))
    }
}

/// The single-character string for a decimal digit.
fn digit_str(d: u8) -> (r: &'static str)
    requires
        d < 10,
    ensures
        r@ == seq![digit_char(d as int)],
{
    proof {
        reveal_strlit("0");
        reveal_strlit("1");
        reveal_strlit("2");
        reveal_strlit("3");
        reveal_strlit("4");
        reveal_strlit("5");
        reveal_strlit("6");
        reveal_strlit("7");
        reveal_strlit("8");
        reveal_strlit("9");
    }
    if d == 0 {
        "0"
    } else if d == 1 {
        "1"
    } else if d == 2 {
        "2"
    } else if d == 3 {
        "3"
    } else if d == 4 {
        "4"
    } else if d == 5 {
        "5"
    } else if d == 6 {
        "6"
    } else if d == 7 {
        "7"
    } else if d == 8 {
        "8"
    } else {
        "9"
    }
}

/// Append the decimal notation of a nonnegative number to a string.
pub fn push_dec_string(buffer: &mut String, n: u64)
    ensures
        final(buffer)@ == old(buffer)@ + spec_dec_string(n as int),
    decreases n,
{
    if n >= 10 {
        push_dec_string(buffer, n / 10);
        buffer.append(digit_str((n % 10) as u8));
        proof {
            assert(buffer@ =~= old(buffer)@ + spec_dec_string(n as int));
        }
    } else {
        buffer.append(digit_str(n as u8));
        proof {
            assert(buffer@ =~= old(buffer)@ + spec_dec_string(n as int));
        }
    }
}

/// Clamp one color component to the byte range.
pub fn clamp(c: i64) -> (r: u8)
    ensures
        r == spec_clamp(c as int),
        c >= SCALE ==> r == 255,
        c <= 0 ==> r == 0,
{
    let m: i128 = 255 * (c as i128);
    if m >= 255 * (SCALE as i128) {
        255
    } else if m < 0 {
        0
    } else {
        ((m as u128) / (SCALE as u128)) as u8
    }
}

impl RGB {
    /// Create a color from its three components.
    pub fn new(red: i64, green: i64, blue: i64) -> (r: Self)
        ensures
            r == (RGB { red, green, blue }),
    {
        Self { red, green, blue }
    }

    /// Pure black: every component zero.
    pub fn black() -> (r: Self)
        ensures
            r == (RGB { red: 0, green: 0, blue: 0 }),
    {
        Self { red: 0, green: 0, blue: 0 }
    }

    /// Pure white: every component one.
    pub fn white() -> (r: Self)
        ensures
            r == (RGB { red: SCALE as i64, green: SCALE as i64, blue: SCALE as i64 }),
    {
        Self { red: SCALE, green: SCALE, blue: SCALE }
    }

    /// Full red.
    pub fn red() -> (r: Self)
        ensures
            r == (RGB { red: SCALE as i64, green: 0, blue: 0 }),
    {
        Self { red: SCALE, green: 0, blue: 0 }
    }

    /// Full green.
    pub fn green() -> (r: Self)
        ensures
            r == (RGB { red: 0, green: SCALE as i64, blue: 0 }),
    {
        Self { red: 0, green: SCALE, blue: 0 }
    }

    /// Full blue.
    pub fn blue() -> (r: Self)
        ensures
            r == (RGB { red: 0, green: 0, blue: SCALE as i64 }),
    {
        Self { red: 0, green: 0, blue: SCALE }
    }

    /// Componentwise sum.
    pub fn add(self, rhs: Self) -> (r: Self)
        ensures
            r == spec_rgb_add(self, rhs),
    {
        Self {
            red: fx_add(self.red, rhs.red),
            green: fx_add(self.green, rhs.green),
            blue: fx_add(self.blue, rhs.blue),
        }
    }

    /// Componentwise difference.
    pub fn sub(self, rhs: Self) -> (r: Self)
        ensures
            r == spec_rgb_sub(self, rhs),
    {
        Self {
            red: fx_sub(self.red, rhs.red),
            green: fx_sub(self.green, rhs.green),
            blue: fx_sub(self.blue, rhs.blue),
        }
    }

    /// Scale every component by a fixed-point factor.
    pub fn scale(self, s: i64) -> (r: Self)
        ensures
            r == spec_rgb_scale(self, s as int),
    {
        Self {
            red: fx_mul(self.red, s),
            green: fx_mul(self.green, s),
            blue: fx_mul(self.blue, s),
        }
    }

    /// Hadamard (componentwise) product with another color.
    pub fn mul(self, rhs: Self) -> (r: Self)
        ensures
            r == spec_rgb_mul(self, rhs),
    {
        Self {
            red: fx_mul(self.red, rhs.red),
            green: fx_mul(self.green, rhs.green),
            blue: fx_mul(self.blue, rhs.blue),
        }
    }

    /// Epsilon-aware comparison with another color.
    pub fn approx_eq(self, other: Self) -> (r: bool)
        ensures
            r == spec_rgb_approx(self, other),
    {
        crate::float_eq(self.red, other.red) && crate::float_eq(self.green, other.green)
            && crate::float_eq(self.blue, other.blue)
    }

    /// A color built from three byte components.
    pub fn from_u8(red: u8, green: u8, blue: u8) -> (r: Self)
        ensures
            r == (RGB {
                red: spec_from_byte(red as int) as i64,
                green: spec_from_byte(green as int) as i64,
                blue: spec_from_byte(blue as int) as i64,
            }),
    {
        Self { red: from_byte(red), green: from_byte(green), blue: from_byte(blue) }
    }

    /// The three components clamped to the byte range.
    pub fn clamp_components(self) -> (r: (u8, u8, u8))
        ensures
            r.0 == spec_clamp(self.red as int),
            r.1 == spec_clamp(self.green as int),
            r.2 == spec_clamp(self.blue as int),
    {
        (clamp(self.red), clamp(self.green), clamp(self.blue))
    }

    /// The clamped components as three decimal strings.
    pub fn rgb_string_array(&self) -> (r: [String; 3])
        ensures
            r[0]@ == spec_dec_string(spec_clamp(self.red as int)),
            r[1]@ == spec_dec_string(spec_clamp(self.green as int)),
            r[2]@ == spec_dec_string(spec_clamp(self.blue as int)),
    {
        let mut s0 = String::new();
        push_dec_string(&mut s0, clamp(self.red) as u64);
        let mut s1 = String::new();
        push_dec_string(&mut s1, clamp(self.green) as u64);
        let mut s2 = String::new();
        push_dec_string(&mut s2, clamp(self.blue) as u64);
        [s0, s1, s2]
    }

    /// The clamped components as a `"R G B"` string.
    pub fn ppm_clamp(&self) -> (r: String)
        ensures
            r@ == spec_dec_string(spec_clamp(self.red as int)) + seq![' '] + spec_dec_string(
                spec_clamp(self.green as int),
            ) + seq![' '] + spec_dec_string(spec_clamp(self.blue as int)),
    {
        proof {
            reveal_strlit(" ");
        }
        let mut buffer = String::new();
        push_dec_string(&mut buffer, clamp(self.red) as u64);
        buffer.append(" ");
        push_dec_string(&mut buffer, clamp(self.green) as u64);
        buffer.append(" ");
        push_dec_string(&mut buffer, clamp(self.blue) as u64);
        proof {
            assert(buffer@ =~= spec_dec_string(spec_clamp(self.red as int)) + seq![' ']
                + spec_dec_string(spec_clamp(self.green as int)) + seq![' ']
                + spec_dec_string(spec_clamp(self.blue as int)));
        }
        buffer
    }
}

/// One byte component turned back into a fixed-point color component.
fn from_byte(n: u8) -> (r: i64)
    ensures
        r == spec_from_byte(n as int),
{
    proof {
        assert((n as u64) * (SCALE as u64) <= 255u64 * 1000000u64) by (nonlinear_arith)
            requires
                (n as u64) <= 255u64,
                (SCALE as u64) == 1000000u64,
        ;
    }
    (((n as u64) * (SCALE as u64) + 127) / 255) as i64
}

} // verus!
