//! Document-space geometry in fixed-point arithmetic.
//!
//! A document-space coordinate is stored in subunits of 1/1000 of a
//! document unit, together with a flag that records whether the value the
//! caller supplied was finite. Rasterization scale factors (pixels per
//! document unit) are stored in the same 1/1000 resolution.

use vstd::prelude::*;
use vstd::arithmetic::div_mod::lemma_fundamental_div_mod;
use vstd::arithmetic::div_mod::lemma_hoist_over_denominator;

use crate::error::RenderError;

verus! {

/// Subunits per document unit.
pub const SUBUNITS: i64 = 1000;

/// Half a document unit, in subunits: the anti-aliasing safety margin that
/// bounds normalization adds on each side of each axis.
pub const HALF_UNIT: i64 = 500;

/// Largest magnitude, in subunits, that a well-formed coordinate may have.
pub const COORD_LIMIT: i64 = 1_000_000_000_000_000;

/// Largest magnitude, in units, accepted by [`Coord::from_units`].
pub const UNIT_LIMIT: i64 = 1_000_000_000_000;

/// Largest magnitude, in subunits, that a rasterization bound may have:
/// leaves room for the ceiling and the margin that normalization adds.
pub const NORM_INPUT_LIMIT: i64 = COORD_LIMIT - 2 * SUBUNITS;

/// A document-space coordinate. `sub` is the position in subunits and is
/// meaningful only when `finite` holds; a coordinate with `finite == false`
/// stands for a non-finite value handed in by a caller.
#[derive(Debug, Clone, Copy, PartialEq, Eq, Structural)]
pub struct Coord {
    /// Whether the value is finite.
    pub finite: bool,
    /// Position in subunits (1/1000 document unit).
    pub sub: i64,
}

impl Coord {
    /// A finite, in-range coordinate.
    pub open spec fn wf(self) -> bool {
        self.finite && -COORD_LIMIT <= self.sub <= COORD_LIMIT
    }

    /// The finite coordinate at `u` whole document units.
    pub fn from_units(u: i64) -> (r: Coord)
        requires
            -UNIT_LIMIT <= u <= UNIT_LIMIT,
        ensures
            r.finite,
            r.sub == u * SUBUNITS,
            r.wf(),
    {
        Coord { finite: true, sub: u * SUBUNITS }
    }

    /// The finite coordinate at `sub` subunits.
    pub fn from_subunits(sub: i64) -> (r: Coord)
        ensures
            r.finite,
            r.sub == sub,
    {
        Coord { finite: true, sub }
    }

    /// The coordinate standing for a non-finite input value.
    pub fn non_finite() -> (r: Coord)
        ensures
            !r.finite,
    {
        Coord { finite: false, sub: 0 }
    }
}

/// The smaller of two finite coordinates.
pub open spec fn coord_min(a: Coord, b: Coord) -> Coord {
    Coord { finite: true, sub: if a.sub <= b.sub { a.sub } else { b.sub } }
}

/// The larger of two finite coordinates.
pub open spec fn coord_max(a: Coord, b: Coord) -> Coord {
    Coord { finite: true, sub: if a.sub >= b.sub { a.sub } else { b.sub } }
}

/// An axis-aligned document-space box.
#[derive(Debug, Clone, Copy, PartialEq, Eq, Structural)]
pub struct Aabb {
    /// Smallest x coordinate.
    pub min_x: Coord,
    /// Smallest y coordinate.
    pub min_y: Coord,
    /// Largest x coordinate.
    pub max_x: Coord,
    /// Largest y coordinate.
    pub max_y: Coord,
}

impl Aabb {
    /// All four coordinates are finite.
    pub open spec fn is_finite(self) -> bool {
        self.min_x.finite && self.min_y.finite && self.max_x.finite && self.max_y.finite
    }

    /// Finite, in range, and the minima do not exceed the maxima.
    pub open spec fn wf(self) -> bool {
        &&& self.min_x.wf()
        &&& self.min_y.wf()
        &&& self.max_x.wf()
        &&& self.max_y.wf()
        &&& self.min_x.sub <= self.max_x.sub
        &&& self.min_y.sub <= self.max_y.sub
    }

    /// Width in subunits.
    pub open spec fn spec_extent_x(self) -> int {
        self.max_x.sub - self.min_x.sub
    }

    /// Height in subunits.
    pub open spec fn spec_extent_y(self) -> int {
        self.max_y.sub - self.min_y.sub
    }

    /// The box spanning `[x0, x1] x [y0, y1]` whole document units.
    pub fn from_units(x0: i64, y0: i64, x1: i64, y1: i64) -> (r: Aabb)
        requires
            -UNIT_LIMIT <= x0 <= UNIT_LIMIT,
            -UNIT_LIMIT <= y0 <= UNIT_LIMIT,
            -UNIT_LIMIT <= x1 <= UNIT_LIMIT,
            -UNIT_LIMIT <= y1 <= UNIT_LIMIT,
        ensures
            r.is_finite(),
            r.min_x.sub == x0 * SUBUNITS,
            r.min_y.sub == y0 * SUBUNITS,
            r.max_x.sub == x1 * SUBUNITS,
            r.max_y.sub == y1 * SUBUNITS,
            x0 <= x1 && y0 <= y1 ==> r.wf(),
    {
        Aabb {
            min_x: Coord::from_units(x0),
            min_y: Coord::from_units(y0),
            max_x: Coord::from_units(x1),
            max_y: Coord::from_units(y1),
        }
    }

    /// Width in subunits.
    pub fn extent_x(&self) -> (r: i64)
        requires
            i64::MIN <= self.spec_extent_x() <= i64::MAX,
        ensures
            r == self.spec_extent_x(),
    {
        self.max_x.sub - self.min_x.sub
    }

    /// Height in subunits.
    pub fn extent_y(&self) -> (r: i64)
        requires
            i64::MIN <= self.spec_extent_y() <= i64::MAX,
        ensures
            r == self.spec_extent_y(),
    {
        self.max_y.sub - self.min_y.sub
    }

    /// The axis-aligned bounding union of two finite boxes.
    pub fn union(&self, other: &Aabb) -> (r: Aabb)
        requires
            self.is_finite(),
            other.is_finite(),
        ensures
            r == union_spec(*self, *other),
    {
        Aabb {
            min_x: Coord {
                finite: true,
                sub: if self.min_x.sub <= other.min_x.sub {
                    self.min_x.sub
                } else {
                    other.min_x.sub
                },
            },
            min_y: Coord {
                finite: true,
                sub: if self.min_y.sub <= other.min_y.sub {
                    self.min_y.sub
                } else {
                    other.min_y.sub
                },
            },
            max_x: Coord {
                finite: true,
                sub: if self.max_x.sub >= other.max_x.sub {
                    self.max_x.sub
                } else {
                    other.max_x.sub
                },
            },
            max_y: Coord {
                finite: true,
                sub: if self.max_y.sub >= other.max_y.sub {
                    self.max_y.sub
                } else {
                    other.max_y.sub
                },
            },
        }
    }
}

/// The axis-aligned bounding union: componentwise minimum of the minima and
/// maximum of the maxima.
pub open spec fn union_spec(a: Aabb, b: Aabb) -> Aabb {
    Aabb {
        min_x: coord_min(a.min_x, b.min_x),
        min_y: coord_min(a.min_y, b.min_y),
        max_x: coord_max(a.max_x, b.max_x),
        max_y: coord_max(a.max_y, b.max_y),
    }
}

/// Bounding union is associative.
pub proof fn lemma_union_assoc(a: Aabb, b: Aabb, c: Aabb)
    ensures
        union_spec(union_spec(a, b), c) == union_spec(a, union_spec(b, c)),
{
}

/// Bounding union is commutative.
pub proof fn lemma_union_comm(a: Aabb, b: Aabb)
    ensures
        union_spec(a, b) == union_spec(b, a),
{
}

/// Bounding union preserves well-formedness.
pub proof fn lemma_union_wf(a: Aabb, b: Aabb)
    requires
        a.wf(),
        b.wf(),
    ensures
        union_spec(a, b).wf(),
{
}

/// `s` rounded down to a multiple of one document unit.
pub open spec fn floor_unit_spec(s: int) -> int {
    (s / (SUBUNITS as int)) * (SUBUNITS as int)
}

/// `s` rounded up to a multiple of one document unit.
pub open spec fn ceil_unit_spec(s: int) -> int {
    floor_unit_spec(s + SUBUNITS - 1)
}

/// A box accepted as a rasterization target: finite, and small enough that
/// the ceiling and the margin keep the result in range.
pub open spec fn bounds_ok(a: Aabb) -> bool {
    &&& a.is_finite()
    &&& -NORM_INPUT_LIMIT <= a.min_x.sub <= NORM_INPUT_LIMIT
    &&& -NORM_INPUT_LIMIT <= a.min_y.sub <= NORM_INPUT_LIMIT
    &&& -NORM_INPUT_LIMIT <= a.max_x.sub <= NORM_INPUT_LIMIT
    &&& -NORM_INPUT_LIMIT <= a.max_y.sub <= NORM_INPUT_LIMIT
}

/// The normalized rasterization target: extents forced non-negative, box
/// rounded outward to whole document units, then half a unit of
/// anti-aliasing margin added on every side (so each axis grows by one
/// whole unit).
pub open spec fn normalized_spec(a: Aabb) -> Aabb {
    let lo_x = if a.min_x.sub <= a.max_x.sub { a.min_x.sub as int } else { a.max_x.sub as int };
    let hi_x = if a.max_x.sub >= a.min_x.sub { a.max_x.sub as int } else { a.min_x.sub as int };
    let lo_y = if a.min_y.sub <= a.max_y.sub { a.min_y.sub as int } else { a.max_y.sub as int };
    let hi_y = if a.max_y.sub >= a.min_y.sub { a.max_y.sub as int } else { a.min_y.sub as int };
    Aabb {
        min_x: Coord { finite: true, sub: (floor_unit_spec(lo_x) - HALF_UNIT) as i64 },
        min_y: Coord { finite: true, sub: (floor_unit_spec(lo_y) - HALF_UNIT) as i64 },
        max_x: Coord { finite: true, sub: (ceil_unit_spec(hi_x) + HALF_UNIT) as i64 },
        max_y: Coord { finite: true, sub: (ceil_unit_spec(hi_y) + HALF_UNIT) as i64 },
    }
}

proof fn lemma_floor_unit_bounds(s: int)
    requires
        -COORD_LIMIT <= s <= COORD_LIMIT,
    ensures
        s - SUBUNITS < floor_unit_spec(s) <= s,
        -COORD_LIMIT <= floor_unit_spec(s) <= COORD_LIMIT,
        floor_unit_spec(s) % (SUBUNITS as int) == 0,
{
    let d = SUBUNITS as int;
    lemma_fundamental_div_mod(s, d);
    assert(0 <= s % d < d);
    assert(floor_unit_spec(s) == s - s % d) by {
        assert(s == d * (s / d) + s % d);
        assert(d * (s / d) == (s / d) * d) by (nonlinear_arith);
    }
    assert((s - s % d) % d == 0) by {
        assert(d * (s / d) % d == 0) by {
            vstd::arithmetic::div_mod::lemma_mod_multiples_basic(s / d, d);
            assert(d * (s / d) == (s / d) * d) by (nonlinear_arith);
        }
    }
}

/// Rounds a subunit position down to a whole document unit.
fn floor_unit(s: i64) -> (r: i64)
    requires
        -COORD_LIMIT <= s <= COORD_LIMIT,
    ensures
        r == floor_unit_spec(s as int),
{
    proof {
        lemma_floor_unit_bounds(s as int);
    }
    let t: u64 = (s + COORD_LIMIT) as u64;
    let q: u64 = (t / 1000) * 1000;
    proof {
        let d = SUBUNITS as int;
        // COORD_LIMIT is itself a multiple of one unit, so shifting by it
        // commutes with rounding down.
        lemma_hoist_over_denominator(s as int, (COORD_LIMIT as int) / d, d as nat);
        assert(t as int / d == s as int / d + (COORD_LIMIT as int) / d);
        assert(q as int == floor_unit_spec(s as int) + COORD_LIMIT) by (nonlinear_arith)
            requires
                t as int / d == s as int / d + (COORD_LIMIT as int) / d,
                q == (t as int / d) * d,
                floor_unit_spec(s as int) == (s as int / d) * d,
                d == 1000,
                COORD_LIMIT == 1_000_000_000_000_000i64,
        {
        }
    }
    (q as i64) - COORD_LIMIT
}

/// Rounds a subunit position up to a whole document unit.
fn ceil_unit(s: i64) -> (r: i64)
    requires
        -COORD_LIMIT <= s <= COORD_LIMIT - SUBUNITS,
    ensures
        r == ceil_unit_spec(s as int),
{
    floor_unit(s + SUBUNITS - 1)
}

/// Normalizes a rasterization target: forces non-negative extents, rounds
/// the box outward to whole document units, and adds half a unit of margin
/// on every side. Fails with `InvalidBounds` exactly on boxes that are
/// non-finite or out of the representable range.
pub fn normalize_bounds(bounds: &Aabb) -> (r: Result<Aabb, RenderError>)
    ensures
        bounds_ok(*bounds) ==> r == Ok::<Aabb, RenderError>(normalized_spec(*bounds)),
        !bounds_ok(*bounds) ==> r == Err::<Aabb, RenderError>(RenderError::InvalidBounds),
        r is Ok ==> r->Ok_0 == normalized_spec(*bounds),
{
    if !(bounds.min_x.finite && bounds.min_y.finite && bounds.max_x.finite && bounds.max_y.finite)
    {
        return Err(RenderError::InvalidBounds);
    }
    let limit: i64 = NORM_INPUT_LIMIT;
    if bounds.min_x.sub < -limit || bounds.min_x.sub > limit || bounds.min_y.sub < -limit
        || bounds.min_y.sub > limit || bounds.max_x.sub < -limit || bounds.max_x.sub > limit
        || bounds.max_y.sub < -limit || bounds.max_y.sub > limit {
        return Err(RenderError::InvalidBounds);
    }
    let lo_x: i64 = if bounds.min_x.sub <= bounds.max_x.sub {
        bounds.min_x.sub
    } else {
        bounds.max_x.sub
    };
    let hi_x: i64 = if bounds.max_x.sub >= bounds.min_x.sub {
        bounds.max_x.sub
    } else {
        bounds.min_x.sub
    };
    let lo_y: i64 = if bounds.min_y.sub <= bounds.max_y.sub {
        bounds.min_y.sub
    } else {
        bounds.max_y.sub
    };
    let hi_y: i64 = if bounds.max_y.sub >= bounds.min_y.sub {
        bounds.max_y.sub
    } else {
        bounds.min_y.sub
    };
    proof {
        lemma_floor_unit_bounds(lo_x as int);
        lemma_floor_unit_bounds(lo_y as int);
        lemma_floor_unit_bounds(hi_x + SUBUNITS - 1);
        lemma_floor_unit_bounds(hi_y + SUBUNITS - 1);
    }
    Ok(
        Aabb {
            min_x: Coord { finite: true, sub: floor_unit(lo_x) - HALF_UNIT },
            min_y: Coord { finite: true, sub: floor_unit(lo_y) - HALF_UNIT },
            max_x: Coord { finite: true, sub: ceil_unit(hi_x) + HALF_UNIT },
            max_y: Coord { finite: true, sub: ceil_unit(hi_y) + HALF_UNIT },
        },
    )
}

/// Normalization never yields a degenerate box: whatever the input — even
/// one with zero extent on an axis — each normalized extent is at least one
/// whole document unit, and the result is well-formed.
pub proof fn lemma_normalized_nondegenerate(a: Aabb)
    requires
        bounds_ok(a),
    ensures
        normalized_spec(a).wf(),
        normalized_spec(a).spec_extent_x() >= SUBUNITS,
        normalized_spec(a).spec_extent_y() >= SUBUNITS,
{
    let lo_x = if a.min_x.sub <= a.max_x.sub { a.min_x.sub as int } else { a.max_x.sub as int };
    let hi_x = if a.max_x.sub >= a.min_x.sub { a.max_x.sub as int } else { a.min_x.sub as int };
    let lo_y = if a.min_y.sub <= a.max_y.sub { a.min_y.sub as int } else { a.max_y.sub as int };
    let hi_y = if a.max_y.sub >= a.min_y.sub { a.max_y.sub as int } else { a.min_y.sub as int };
    lemma_floor_unit_bounds(lo_x);
    lemma_floor_unit_bounds(lo_y);
    lemma_floor_unit_bounds(hi_x + SUBUNITS - 1);
    lemma_floor_unit_bounds(hi_y + SUBUNITS - 1);
}

/// Number of pixels that a document-space extent covers at a scale of
/// `scale_milli` / 1000 pixels per document unit, rounding half up.
pub open spec fn scaled_px_spec(extent_sub: int, scale_milli: int) -> int {
    (extent_sub * scale_milli + 500_000) / 1_000_000
}

/// Computes `scaled_px_spec` for a non-negative extent.
pub fn scaled_px(extent_sub: i64, scale_milli: u32) -> (r: u64)
    requires
        0 <= extent_sub <= 2 * COORD_LIMIT,
    ensures
        r == scaled_px_spec(extent_sub as int, scale_milli as int),
{
    proof {
        assert((extent_sub as int) * (scale_milli as int) <= 2 * (COORD_LIMIT as int) * (
        u32::MAX as int)) by (nonlinear_arith)
            requires
                0 <= extent_sub <= 2 * COORD_LIMIT,
                0 <= scale_milli <= u32::MAX,
        {
        }
    }
    let wide: u128 = (extent_sub as u128) * (scale_milli as u128);
    let px: u128 = (wide + 500_000) / 1_000_000;
    px as u64
}

} // verus!
