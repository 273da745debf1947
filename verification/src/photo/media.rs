//! What the frame shows, and what travels from the worker to the screen.

use crate::photo::pixels::PhotoData;
use vstd::prelude::*;

verus! {

/// A fraction of two unsigned numbers, as a photo stores it. The denominator
/// may be zero: the fraction then stands for no number.
#[derive(Clone, Copy, Debug, PartialEq, Eq, Structural)]
pub struct Rational {
    pub num: u32,
    pub denom: u32,
}

/// An angle in degrees, minutes and seconds.
#[derive(Clone, Copy, Debug, PartialEq, Eq, Structural)]
pub struct Angle {
    pub degrees: Rational,
    pub minutes: Rational,
    pub seconds: Rational,
}

/// Where a photo was taken.
#[derive(Clone, Copy, Debug, PartialEq, Eq, Structural)]
pub struct Location {
    pub latitude: Angle,
    pub longitude: Angle,
}

/// The angle in degrees as one fraction.
#[derive(Clone, Copy, Debug, PartialEq, Eq, Structural)]
pub struct DecimalDegrees {
    pub numerator: u128,
    pub denominator: u128,
}

impl Angle {
    /// The product of the three denominators and 3600: a common denominator
    /// of degrees, minutes over 60 and seconds over 3600.
    pub open spec fn common_denominator(self) -> int {
        self.degrees.denom * self.minutes.denom * self.seconds.denom * 3600
    }

    /// The numerator of `degrees + minutes / 60 + seconds / 3600` over
    /// [`Angle::common_denominator`].
    pub open spec fn decimal_numerator(self) -> int {
        self.degrees.num * self.minutes.denom * self.seconds.denom * 3600 + self.minutes.num
            * self.degrees.denom * self.seconds.denom * 60 + self.seconds.num * self.degrees.denom
            * self.minutes.denom
    }

    /// Every part of the angle is a number.
    pub open spec fn is_number(self) -> bool {
        self.degrees.denom != 0 && self.minutes.denom != 0 && self.seconds.denom != 0
    }

    /// Decimal degrees: `degrees + minutes / 60 + seconds / 3600`, exactly.
    /// The denominator is zero where a part of the angle is no number.
    pub fn decimal_degrees(&self) -> (out: DecimalDegrees)
        ensures
            out.numerator == self.decimal_numerator(),
            out.denominator == self.common_denominator(),
            out.denominator != 0 <==> self.is_number(),
    {
        let dn: u128 = self.degrees.num as u128;
        let dd: u128 = self.degrees.denom as u128;
        let mn: u128 = self.minutes.num as u128;
        let md: u128 = self.minutes.denom as u128;
        let sn: u128 = self.seconds.num as u128;
        let sd: u128 = self.seconds.denom as u128;
        proof {
            lemma_product_bound(dn as int, md as int, sd as int);
            lemma_product_bound(mn as int, dd as int, sd as int);
            lemma_product_bound(sn as int, dd as int, md as int);
            lemma_product_bound(dd as int, md as int, sd as int);
            lemma_product_zero(dd as int, md as int, sd as int);
        }
        let numerator: u128 = dn * md * sd * 3600 + mn * dd * sd * 60 + sn * dd * md;
        let denominator: u128 = dd * md * sd * 3600;
        DecimalDegrees { numerator, denominator }
    }
}

/// The product of three numbers of 32 bits has at most 96.
proof fn lemma_product_bound(a: int, b: int, c: int)
    by (nonlinear_arith)
    requires
        0 <= a <= 0xffff_ffff,
        0 <= b <= 0xffff_ffff,
        0 <= c <= 0xffff_ffff,
    ensures
        0 <= a * b <= 0xffff_ffff * 0xffff_ffff,
        0 <= a * b * c <= 0xffff_ffff * 0xffff_ffff * 0xffff_ffff,
{
}

/// A product is zero exactly where a factor is.
proof fn lemma_product_zero(a: int, b: int, c: int)
    by (nonlinear_arith)
    ensures
        a * b * c * 3600 == 0 <==> a == 0 || b == 0 || c == 0,
{
}

/// One item that the frame can show.
#[derive(Clone, Debug)]
pub enum Media {
    Photo {
        path: String,
        /// 0 where the file holds no readable metadata, else 1 to 8.
        orientation: u32,
        location: Option<Location>,
        date: Option<String>,
    },
    Video { path: String },
}

/// What the worker hands to the screen.
#[derive(Debug)]
pub enum MediaMessage {
    Photo { photo: Media, photo_data: PhotoData, address: Result<String, String> },
    Video { video: Media },
}

} // verus!
