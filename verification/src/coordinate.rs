//! Exact conversion of degree, minute and second rationals to signed decimal degrees.
//!
//! A coordinate is kept as an exact fraction of two integers, so that nothing is
//! rounded and a zero denominator can never turn into an infinity.

use vstd::prelude::*;

verus! {

/// A numerator and a denominator, as EXIF stores non-integer values.
///
/// Both the unsigned and the signed encoding are accepted: some devices write
/// signed rationals where the standard asks for unsigned ones.
#[allow(inconsistent_fields)]
#[derive(Clone, Copy, Debug, PartialEq, Eq, Structural)]
pub enum RationalValue {
    /// A pair of unsigned 32-bit integers.
    Unsigned { num: u32, den: u32 },
    /// A pair of signed 32-bit integers.
    Signed { num: i32, den: i32 },
}

impl RationalValue {
    /// The numerator as a mathematical integer.
    pub open spec fn numerator(self) -> int {
        match self {
            RationalValue::Unsigned { num, den } => num as int,
            RationalValue::Signed { num, den } => num as int,
        }
    }

    /// The denominator as a mathematical integer.
    pub open spec fn denominator(self) -> int {
        match self {
            RationalValue::Unsigned { num, den } => den as int,
            RationalValue::Signed { num, den } => den as int,
        }
    }

    /// The numerator.
    pub fn num(&self) -> (n: i64)
        ensures
            n == self.numerator(),
            -0x8000_0000 <= n <= 0xffff_ffff,
    {
        match self {
            RationalValue::Unsigned { num, den } => *num as i64,
            RationalValue::Signed { num, den } => *num as i64,
        }
    }

    /// The denominator.
    pub fn den(&self) -> (d: i64)
        ensures
            d == self.denominator(),
            -0x8000_0000 <= d <= 0xffff_ffff,
    {
        match self {
            RationalValue::Unsigned { num, den } => *den as i64,
            RationalValue::Signed { num, den } => *den as i64,
        }
    }
}

/// A signed angle in degrees, held as the exact fraction `numerator / denominator`.
#[derive(Clone, Copy, Debug, PartialEq, Eq, Structural)]
pub struct DecimalDegrees {
    /// The numerator; its sign is the sign of the angle.
    pub numerator: i128,
    /// The denominator, always positive in a well-formed value.
    pub denominator: i128,
}

/// Largest magnitude that a well-formed numerator or denominator can reach.
pub open spec fn fraction_bound() -> int {
    0x1_0000_0000_0000_0000_0000_0000_0000
}

impl DecimalDegrees {
    /// A well-formed angle has a positive denominator and parts small enough
    /// that comparisons against whole degrees cannot overflow.
    pub open spec fn wf(self) -> bool {
        &&& 0 < self.denominator <= fraction_bound()
        &&& -fraction_bound() <= self.numerator <= fraction_bound()
    }

    /// Whether the magnitude of the angle is at most `limit` whole degrees.
    pub open spec fn within(self, limit: int) -> bool {
        -(limit * self.denominator) <= self.numerator <= limit * self.denominator
    }

    /// Makes an angle of a numerator and a denominator.
    ///
    /// There is a result exactly when the two make a well-formed angle: the
    /// denominator is positive and neither part exceeds [`fraction_bound`].
    pub fn new(numerator: i128, denominator: i128) -> (angle: Option<DecimalDegrees>)
        ensures
            angle is Some <==> (DecimalDegrees { numerator, denominator }).wf(),
            angle matches Some(a) ==> a == (DecimalDegrees { numerator, denominator }),
    {
        let bound: i128 = 0x1_0000_0000_0000_0000_0000_0000_0000;
        if 0 < denominator && denominator <= bound && -bound <= numerator && numerator <= bound {
            Some(DecimalDegrees { numerator, denominator })
        } else {
            None
        }
    }

    /// Tells whether the magnitude of the angle is at most `limit` whole degrees.
    pub fn is_within(&self, limit: u8) -> (inside: bool)
        requires
            self.wf(),
        ensures
            inside == self.within(limit as int),
    {
        let bound: i128 = limit as i128;
        assert(0 <= bound * self.denominator <= 255 * fraction_bound()) by (nonlinear_arith)
            requires
                0 <= bound <= 255,
                0 < self.denominator <= fraction_bound(),
        ;
        let reach: i128 = bound * self.denominator;
        -reach <= self.numerator && self.numerator <= reach
    }

    /// The angle with the opposite sign.
    pub fn negated(&self) -> (opposite: DecimalDegrees)
        requires
            self.wf(),
        ensures
            opposite.wf(),
            opposite.numerator == -self.numerator,
            opposite.denominator == self.denominator,
    {
        DecimalDegrees { numerator: -self.numerator, denominator: self.denominator }
    }
}

/// Numerator of `deg + min / 60 + sec / 3600` over the common denominator
/// [`dms_denominator`].
pub open spec fn dms_numerator(deg: RationalValue, min: RationalValue, sec: RationalValue) -> int {
    3600 * deg.numerator() * min.denominator() * sec.denominator() + 60 * min.numerator()
        * deg.denominator() * sec.denominator() + sec.numerator() * deg.denominator()
        * min.denominator()
}

/// The common denominator `3600 * deg.den * min.den * sec.den`.
pub open spec fn dms_denominator(deg: RationalValue, min: RationalValue, sec: RationalValue) -> int {
    3600 * deg.denominator() * min.denominator() * sec.denominator()
}

/// Whether a hemisphere letter makes the angle negative: south and west do.
pub open spec fn is_negative_hemisphere(reference: u8) -> bool {
    reference == 0x53 || reference == 0x57
}

/// The decimal angle of a degree, minute and second triple, before any
/// hemisphere is applied: absent if a denominator is zero.
///
/// The fraction is `dms_numerator / dms_denominator` with the sign moved into
/// the numerator.
pub open spec fn dms_to_decimal(deg: RationalValue, min: RationalValue, sec: RationalValue) -> Option<
    DecimalDegrees,
> {
    let n = dms_numerator(deg, min, sec);
    let d = dms_denominator(deg, min, sec);
    if deg.denominator() == 0 || min.denominator() == 0 || sec.denominator() == 0 {
        None
    } else if d < 0 {
        Some(DecimalDegrees { numerator: (-n) as i128, denominator: (-d) as i128 })
    } else {
        Some(DecimalDegrees { numerator: n as i128, denominator: d as i128 })
    }
}

/// The signed decimal angle of a triple and a hemisphere letter.
pub open spec fn signed_decimal(
    deg: RationalValue,
    min: RationalValue,
    sec: RationalValue,
    reference: u8,
) -> Option<DecimalDegrees> {
    match dms_to_decimal(deg, min, sec) {
        None => None,
        Some(angle) => if is_negative_hemisphere(reference) {
            Some(
                DecimalDegrees {
                    numerator: (-angle.numerator) as i128,
                    denominator: angle.denominator,
                },
            )
        } else {
            Some(angle)
        },
    }
}

/// The product of numbers bounded in magnitude is bounded by the product of
/// the bounds.
proof fn lemma_product_bound(a: int, b: int, c: int, bound: int)
    requires
        -bound <= a <= bound,
        -bound <= b <= bound,
        -bound <= c <= bound,
        0 <= bound,
    ensures
        -(bound * bound * bound) <= a * b * c <= bound * bound * bound,
        -(bound * bound) <= a * b <= bound * bound,
{
    let ab = a * b;
    let bb = bound * bound;
    assert(-bb <= ab <= bb && 0 <= bb) by (nonlinear_arith)
        requires
            -bound <= a <= bound,
            -bound <= b <= bound,
            0 <= bound,
            ab == a * b,
            bb == bound * bound,
    ;
    assert(-(bb * bound) <= ab * c <= bb * bound) by (nonlinear_arith)
        requires
            -bb <= ab <= bb,
            -bound <= c <= bound,
            0 <= bound,
            0 <= bb,
    ;
}

/// A product of numbers other than zero is not zero.
proof fn lemma_nonzero_product(a: int, b: int, c: int)
    requires
        a != 0,
        b != 0,
        c != 0,
    ensures
        a * b * c != 0,
        3600 * a * b * c != 0,
{
    assert(a * b != 0) by (nonlinear_arith)
        requires
            a != 0,
            b != 0,
    ;
    let ab = a * b;
    assert(ab * c != 0) by (nonlinear_arith)
        requires
            ab != 0,
            c != 0,
    ;
    assert(3600 * a * b * c == 3600 * (a * b * c)) by (nonlinear_arith);
}

/// Converts degrees, minutes and seconds to one exact decimal angle.
///
/// The result is `deg + min / 60 + sec / 3600` as a fraction with a positive
/// denominator; it is absent exactly when one of the three denominators is zero.
pub fn to_decimal(deg: RationalValue, min: RationalValue, sec: RationalValue) -> (angle: Option<
    DecimalDegrees,
>)
    ensures
        angle == dms_to_decimal(deg, min, sec),
        angle is None <==> (deg.denominator() == 0 || min.denominator() == 0 || sec.denominator()
            == 0),
        angle matches Some(a) ==> a.wf(),
{
    let dn: i128 = deg.num() as i128;
    let dd: i128 = deg.den() as i128;
    let mn: i128 = min.num() as i128;
    let md: i128 = min.den() as i128;
    let sn: i128 = sec.num() as i128;
    let sd: i128 = sec.den() as i128;
    if dd == 0 || md == 0 || sd == 0 {
        return None;
    }
    proof {
        let b: int = 0x1_0000_0000;
        lemma_product_bound(dn as int, md as int, sd as int, b);
        lemma_product_bound(mn as int, dd as int, sd as int, b);
        lemma_product_bound(sn as int, dd as int, md as int, b);
        lemma_product_bound(dd as int, md as int, sd as int, b);
        lemma_nonzero_product(dd as int, md as int, sd as int);
        assert(b * b * b == 0x1_0000_0000_0000_0000_0000_0000) by (nonlinear_arith)
            requires
                b == 0x1_0000_0000,
        ;
        assert(b * b == 0x1_0000_0000_0000_0000) by (nonlinear_arith)
            requires
                b == 0x1_0000_0000,
        ;
    }
    let term_deg: i128 = 3600 * (dn * md * sd);
    let term_min: i128 = 60 * (mn * dd * sd);
    let term_sec: i128 = sn * dd * md;
    let numerator: i128 = term_deg + term_min + term_sec;
    let denominator: i128 = 3600 * (dd * md * sd);
    proof {
        assert(3600 * (dn * md * sd) == 3600 * dn * md * sd) by (nonlinear_arith);
        assert(60 * (mn * dd * sd) == 60 * mn * dd * sd) by (nonlinear_arith);
        assert(3600 * (dd * md * sd) == 3600 * dd * md * sd) by (nonlinear_arith);
        assert(numerator == dms_numerator(deg, min, sec));
        assert(denominator == dms_denominator(deg, min, sec));
    }
    if denominator < 0 {
        Some(DecimalDegrees { numerator: -numerator, denominator: -denominator })
    } else {
        Some(DecimalDegrees { numerator, denominator })
    }
}

/// Resolves a coordinate from its three rationals and its hemisphere letter.
///
/// The angle is `deg + min / 60 + sec / 3600`, negated exactly when the letter is
/// `S` or `W`. A zero denominator gives no coordinate.
pub fn resolve_coordinate(
    deg: RationalValue,
    min: RationalValue,
    sec: RationalValue,
    reference: u8,
) -> (angle: Option<DecimalDegrees>)
    ensures
        angle == signed_decimal(deg, min, sec, reference),
        angle is None <==> (deg.denominator() == 0 || min.denominator() == 0 || sec.denominator()
            == 0),
        angle matches Some(a) ==> a.wf(),
{
    match to_decimal(deg, min, sec) {
        None => None,
        Some(angle) => {
            if reference == 0x53 || reference == 0x57 {
                Some(angle.negated())
            } else {
                Some(angle)
            }
        },
    }
}

/// A resolved coordinate equals `deg + min / 60 + sec / 3600`, and its sign is
/// flipped exactly for the hemispheres south and west.
///
/// The equality is stated without division: the result's fraction and the
/// fraction [`dms_numerator`] over [`dms_denominator`] are cross-multiplied.
pub proof fn coordinate_formula(
    deg: RationalValue,
    min: RationalValue,
    sec: RationalValue,
    reference: u8,
)
    requires
        deg.denominator() != 0,
        min.denominator() != 0,
        sec.denominator() != 0,
    ensures
        signed_decimal(deg, min, sec, reference) matches Some(angle) && angle.denominator > 0 && (
        if is_negative_hemisphere(reference) {
            angle.numerator * dms_denominator(deg, min, sec) == -dms_numerator(deg, min, sec)
                * angle.denominator
        } else {
            angle.numerator * dms_denominator(deg, min, sec) == dms_numerator(deg, min, sec)
                * angle.denominator
        }),
{
    let b: int = 0x1_0000_0000;
    let dn = deg.numerator();
    let dd = deg.denominator();
    let mn = min.numerator();
    let md = min.denominator();
    let sn = sec.numerator();
    let sd = sec.denominator();
    lemma_product_bound(dn, md, sd, b);
    lemma_product_bound(mn, dd, sd, b);
    lemma_product_bound(sn, dd, md, b);
    lemma_product_bound(dd, md, sd, b);
    lemma_nonzero_product(dd, md, sd);
    assert(b * b * b == 0x1_0000_0000_0000_0000_0000_0000) by (nonlinear_arith)
        requires
            b == 0x1_0000_0000,
    ;
    let n = dms_numerator(deg, min, sec);
    let d = dms_denominator(deg, min, sec);
    assert(3600 * dn * md * sd == 3600 * (dn * md * sd)) by (nonlinear_arith);
    assert(60 * mn * dd * sd == 60 * (mn * dd * sd)) by (nonlinear_arith);
    assert(d == 3600 * (dd * md * sd)) by (nonlinear_arith)
        requires
            d == 3600 * dd * md * sd,
    ;
    assert(d != 0);
    let angle = dms_to_decimal(deg, min, sec)->0;
    if d < 0 {
        assert(angle.numerator == -n);
        assert(angle.denominator == -d);
        assert((-n) * d == n * (-d)) by (nonlinear_arith);
        assert(n * d == -(-n) * d) by (nonlinear_arith);
        assert(-(-n) * d == -n * (-d)) by (nonlinear_arith);
    } else {
        assert(angle.numerator == n);
        assert(angle.denominator == d);
    }
    assert(angle.numerator * d == n * angle.denominator);
    assert((-angle.numerator) * d == -n * angle.denominator) by (nonlinear_arith)
        requires
            angle.numerator * d == n * angle.denominator,
    ;
}

/// A triple with a zero denominator never resolves to a coordinate.
pub proof fn zero_denominator_is_absent(
    deg: RationalValue,
    min: RationalValue,
    sec: RationalValue,
    reference: u8,
)
    requires
        deg.denominator() == 0 || min.denominator() == 0 || sec.denominator() == 0,
    ensures
        dms_to_decimal(deg, min, sec) is None,
        signed_decimal(deg, min, sec, reference) is None,
{
}

/// A latitude and a longitude in signed decimal degrees: north and east are positive.
#[derive(Clone, Copy, Debug, PartialEq, Eq, Structural)]
pub struct GeoCoordinate {
    /// Degrees north of the equator, between -90 and 90.
    pub latitude: DecimalDegrees,
    /// Degrees east of the prime meridian, between -180 and 180.
    pub longitude: DecimalDegrees,
}

impl GeoCoordinate {
    /// A well-formed coordinate lies on the globe.
    pub open spec fn wf(self) -> bool {
        &&& self.latitude.wf()
        &&& self.longitude.wf()
        &&& self.latitude.within(90)
        &&& self.longitude.within(180)
    }
}

/// The coordinate made of two angles, if both are present and on the globe.
pub open spec fn coordinate_of(latitude: Option<DecimalDegrees>, longitude: Option<DecimalDegrees>)
    -> Option<GeoCoordinate> {
    match (latitude, longitude) {
        (Some(lat), Some(lon)) => if lat.within(90) && lon.within(180) {
            Some(GeoCoordinate { latitude: lat, longitude: lon })
        } else {
            None
        },
        _ => None,
    }
}

/// Pairs a latitude with a longitude.
///
/// A coordinate is made only when both angles are present, the latitude is
/// within 90 degrees and the longitude within 180; anything else is absent.
pub fn make_coordinate(latitude: Option<DecimalDegrees>, longitude: Option<DecimalDegrees>) -> (point:
    Option<GeoCoordinate>)
    requires
        latitude matches Some(a) ==> a.wf(),
        longitude matches Some(a) ==> a.wf(),
    ensures
        point == coordinate_of(latitude, longitude),
        point matches Some(p) ==> p.wf(),
{
    match (latitude, longitude) {
        (Some(lat), Some(lon)) => {
            if lat.is_within(90) && lon.is_within(180) {
                Some(GeoCoordinate { latitude: lat, longitude: lon })
            } else {
                None
            }
        },
        _ => None,
    }
}

/// A coordinate is made exactly of a latitude within 90 degrees and a longitude
/// within 180: one axis without the other, or an angle off the globe, gives
/// none.
pub proof fn coordinate_needs_both_axes(
    latitude: Option<DecimalDegrees>,
    longitude: Option<DecimalDegrees>,
)
    ensures
        coordinate_of(latitude, longitude) is Some <==> (latitude is Some && longitude is Some
            && latitude->0.within(90) && longitude->0.within(180)),
        coordinate_of(latitude, longitude) matches Some(point) ==> Some(point.latitude) == latitude
            && Some(point.longitude) == longitude,
{
}

} // verus!
