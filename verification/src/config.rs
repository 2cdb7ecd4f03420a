//! Immutable crawl configuration: target aspect ratio, tolerance, rating
//! policy, destination directory and the optional required tag.
//!
//! The aspect ratio and the tolerance are kept as exact rationals
//! (numerator over a positive denominator), so the eligibility test
//! `|width/height - ratio| <= tolerance` is decided by exact integer
//! arithmetic.

use vstd::prelude::*;

use crate::rating::AllowedRating;
use crate::rating::Rating;

verus! {

/// Read-only configuration, created once at startup and shared by every
/// task.
pub struct Config {
    /// Numerator of the target aspect ratio.
    pub ratio_num: u32,
    /// Denominator of the target aspect ratio; positive in a well-formed
    /// configuration.
    pub ratio_den: u32,
    /// Numerator of the tolerance around the target ratio.
    pub tolerance_num: u32,
    /// Denominator of the tolerance; positive in a well-formed
    /// configuration.
    pub tolerance_den: u32,
    /// Which content-maturity ratings are eligible.
    pub allowed_rating: AllowedRating,
    /// Destination directory for downloaded files.
    pub location: String,
    /// When set, a record is eligible only if its tag set contains this
    /// exact token.
    pub required_tag: Option<String>,
}

impl Config {
    /// Both rational denominators are positive, so the ratio and the
    /// tolerance denote actual numbers.
    pub open spec fn wf(self) -> bool {
        self.ratio_den > 0 && self.tolerance_den > 0
    }

    /// `|width/height - ratio| <= tolerance`, cleared of denominators:
    /// with `r = ratio_num/ratio_den` and `t = tolerance_num/tolerance_den`,
    /// a positive height is within tolerance exactly when
    /// `|width*ratio_den - ratio_num*height| * tolerance_den
    ///    <= tolerance_num * height * ratio_den`.
    /// A zero height is never within tolerance.
    pub open spec fn spec_tolerated(self, width: int, height: int) -> bool {
        &&& height > 0
        &&& vstd::math::abs(width * self.ratio_den - self.ratio_num * height)
            * self.tolerance_den <= self.tolerance_num * height * self.ratio_den
    }

    /// Whether `width`/`height` is within `tolerance` of the target aspect
    /// ratio.
    pub fn is_tolerated_aspect_ratio(&self, width: usize, height: usize) -> (r: bool)
        requires
            self.wf(),
        ensures
            r == self.spec_tolerated(width as int, height as int),
    {
        if height == 0 {
            return false;
        }
        let w = width as u128;
        let h = height as u128;
        let rn = self.ratio_num as u128;
        let rd = self.ratio_den as u128;
        let tn = self.tolerance_num as u128;
        let td = self.tolerance_den as u128;
        proof {
            lemma_ratio_products_fit(w as int, h as int, rn as int, rd as int, tn as int, td as int);
        }
        let cross_w = w * rd;
        let cross_r = rn * h;
        let difference = if cross_w >= cross_r {
            cross_w - cross_r
        } else {
            cross_r - cross_w
        };
        proof {
            assert(0 <= difference * td <= u64::MAX * u32::MAX * u32::MAX) by (nonlinear_arith)
                requires
                    0 <= difference <= u64::MAX * u32::MAX,
                    0 <= td <= u32::MAX,
            ;
        }
        difference * td <= tn * h * rd
    }
}

/// All the products formed while clearing denominators fit in 128 bits:
/// each is at most a 64-bit value times two 32-bit values.
proof fn lemma_ratio_products_fit(w: int, h: int, rn: int, rd: int, tn: int, td: int)
    requires
        0 <= w <= u64::MAX,
        0 <= h <= u64::MAX,
        0 <= rn <= u32::MAX,
        0 <= rd <= u32::MAX,
        0 <= tn <= u32::MAX,
        0 <= td <= u32::MAX,
    ensures
        0 <= w * rd <= u64::MAX * u32::MAX,
        0 <= rn * h <= u64::MAX * u32::MAX,
        0 <= tn * h <= u64::MAX * u32::MAX,
        0 <= tn * h * rd <= u64::MAX * u32::MAX * u32::MAX,
        u64::MAX * u32::MAX * u32::MAX <= u128::MAX,
{
    assert(0 <= w * rd <= u64::MAX * u32::MAX && 0 <= rn * h <= u64::MAX * u32::MAX && 0 <= tn * h
        <= u64::MAX * u32::MAX) by (nonlinear_arith)
        requires
            0 <= w <= u64::MAX,
            0 <= h <= u64::MAX,
            0 <= rn <= u32::MAX,
            0 <= rd <= u32::MAX,
            0 <= tn <= u32::MAX,
    ;
    assert(0 <= tn * h * rd <= u64::MAX * u32::MAX * u32::MAX) by (nonlinear_arith)
        requires
            0 <= tn * h <= u64::MAX * u32::MAX,
            0 <= rd <= u32::MAX,
    ;
}

impl Default for Config {
    /// A 16:9 target with a tolerance of 1/1024, ratings up to
    /// `Questionable`, the current directory as destination, and `touhou`
    /// as the required tag.
    fn default() -> (c: Config)
        ensures
            c.wf(),
            c.ratio_num == 16,
            c.ratio_den == 9,
            c.tolerance_num == 1,
            c.tolerance_den == 1024,
            c.allowed_rating == AllowedRating::Above(Rating::Questionable),
            c.location@ == "."@,
            c.required_tag matches Some(t) && t@ == "touhou"@,
    {
        Config {
            ratio_num: 16,
            ratio_den: 9,
            tolerance_num: 1,
            tolerance_den: 1024,
            allowed_rating: AllowedRating::Above(Rating::Questionable),
            location: ".".to_owned(),
            required_tag: Some("touhou".to_owned()),
        }
    }
}

} // verus!
