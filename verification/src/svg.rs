//! Vector fragments: owned SVG markup with document-space bounds.
//!
//! A fragment is a markup body, not a standalone document: it must be
//! wrapped in a root element before an external parser consumes it.

use vstd::prelude::*;

use crate::error::RenderError;
use crate::geom::Aabb;
use crate::geom::COORD_LIMIT;
use crate::geom::union_spec;
use crate::numfmt::append_fixed;
use crate::numfmt::fixed_chars;
use crate::vector::canonicalize_document;
use crate::vector::simplified_markup;
use crate::vector::svg_parses;

verus! {

/// A vector fragment: SVG markup with document-space bounds.
#[derive(Debug, Clone)]
pub struct Svg {
    /// The markup body.
    pub svg_data: String,
    /// Document-space bounds of the fragment.
    pub bounds: Aabb,
}

/// The text that merging appends for a sequence of fragments: each
/// fragment's markup, preceded by a newline, in sequence order.
pub open spec fn merged_text(others: Seq<Svg>) -> Seq<char>
    decreases others.len(),
{
    if others.len() == 0 {
        Seq::empty()
    } else {
        merged_text(others.drop_last()) + seq!['\n'] + others.last().svg_data@
    }
}

/// The bounds after merging a sequence of fragments into bounds `b`: the
/// bounding union of all of them, folded in sequence order.
pub open spec fn merged_bounds(b: Aabb, others: Seq<Svg>) -> Aabb
    decreases others.len(),
{
    if others.len() == 0 {
        b
    } else {
        union_spec(merged_bounds(b, others.drop_last()), others.last().bounds)
    }
}

/// The placement attributes of a wrapped root element.
pub open spec fn placement_attrs_spec(b: Aabb) -> Seq<char> {
    " x=\""@ + fixed_chars(b.min_x.sub as int) + "\" y=\""@ + fixed_chars(b.min_y.sub as int)
        + "\" width=\""@ + fixed_chars(b.spec_extent_x()) + "\" height=\""@ + fixed_chars(
        b.spec_extent_y(),
    ) + "\""@
}

/// The view-box attribute of a wrapped root element.
pub open spec fn viewbox_attr_spec(v: Aabb) -> Seq<char> {
    " viewBox=\""@ + fixed_chars(v.min_x.sub as int) + " "@ + fixed_chars(v.min_y.sub as int)
        + " "@ + fixed_chars(v.spec_extent_x()) + " "@ + fixed_chars(v.spec_extent_y()) + "\""@
}

/// Merging is associative on bounds: folding one sequence after another
/// into `b` yields the same bounds as folding their concatenation.
pub proof fn lemma_merge_bounds_associative(b: Aabb, s1: Seq<Svg>, s2: Seq<Svg>)
    ensures
        merged_bounds(b, s1 + s2) == merged_bounds(merged_bounds(b, s1), s2),
    decreases s2.len(),
{
    if s2.len() == 0 {
        assert(s1 + s2 =~= s1);
    } else {
        lemma_merge_bounds_associative(b, s1, s2.drop_last());
        assert((s1 + s2).drop_last() =~= s1 + s2.drop_last());
    }
}

/// Merging preserves concatenation order on markup text: the text appended
/// for one sequence after another equals the text appended for their
/// concatenation.
pub proof fn lemma_merge_text_associative(s1: Seq<Svg>, s2: Seq<Svg>)
    ensures
        merged_text(s1 + s2) == merged_text(s1) + merged_text(s2),
    decreases s2.len(),
{
    if s2.len() == 0 {
        assert(s1 + s2 =~= s1);
        assert(merged_text(s1) + merged_text(s2) =~= merged_text(s1));
    } else {
        lemma_merge_text_associative(s1, s2.drop_last());
        assert((s1 + s2).drop_last() =~= s1 + s2.drop_last());
        assert(merged_text(s1 + s2) =~= merged_text(s1) + merged_text(s2));
    }
}

/// The document produced by wrapping fragment `data` in a standalone SVG
/// root element with the given placement, view box and aspect-ratio policy.
pub open spec fn wrap_root_spec(
    data: Seq<char>,
    bounds: Option<Aabb>,
    viewbox: Option<Aabb>,
    preserve_aspectratio: bool,
) -> Seq<char> {
    "<svg"@ + (match bounds {
        Some(b) => placement_attrs_spec(b),
        None => Seq::empty(),
    }) + (match viewbox {
        Some(v) => viewbox_attr_spec(v),
        None => Seq::empty(),
    }) + " preserveAspectRatio=\""@ + (if preserve_aspectratio {
        "xMidYMid"@
    } else {
        "none"@
    }) + "\" xmlns=\"http://www.w3.org/2000/svg\" xmlns:xlink=\"http://www.w3.org/1999/xlink\">\n"@
        + data + "\n</svg>"@
}

/// Appends the placement attributes for box `b` to `out`.
fn append_placement_attrs(out: &mut String, b: &Aabb)
    requires
        attr_range(*b),
    ensures
        final(out)@ == old(out)@ + placement_attrs_spec(*b),
{
    out.append(" x=\"");
    append_fixed(out, b.min_x.sub);
    out.append("\" y=\"");
    append_fixed(out, b.min_y.sub);
    out.append("\" width=\"");
    append_fixed(out, b.extent_x());
    out.append("\" height=\"");
    append_fixed(out, b.extent_y());
    out.append("\"");
    proof {
        assert(final(out)@ =~= old(out)@ + placement_attrs_spec(*b));
    }
}

/// Appends the view-box attribute for box `v` to `out`.
fn append_viewbox_attr(out: &mut String, v: &Aabb)
    requires
        attr_range(*v),
    ensures
        final(out)@ == old(out)@ + viewbox_attr_spec(*v),
{
    out.append(" viewBox=\"");
    append_fixed(out, v.min_x.sub);
    out.append(" ");
    append_fixed(out, v.min_y.sub);
    out.append(" ");
    append_fixed(out, v.extent_x());
    out.append(" ");
    append_fixed(out, v.extent_y());
    out.append("\"");
    proof {
        assert(final(out)@ =~= old(out)@ + viewbox_attr_spec(*v));
    }
}

/// A box whose coordinates can be written as markup attributes: ordered,
/// and within twice the coordinate limit (normalized rasterization targets
/// and re-based bounds stay within this).
pub open spec fn attr_range(b: Aabb) -> bool {
    &&& -2 * COORD_LIMIT <= b.min_x.sub <= 2 * COORD_LIMIT
    &&& -2 * COORD_LIMIT <= b.min_y.sub <= 2 * COORD_LIMIT
    &&& -2 * COORD_LIMIT <= b.max_x.sub <= 2 * COORD_LIMIT
    &&& -2 * COORD_LIMIT <= b.max_y.sub <= 2 * COORD_LIMIT
    &&& b.min_x.sub <= b.max_x.sub
    &&& b.min_y.sub <= b.max_y.sub
}

/// Wraps fragment `data` in a standalone SVG root element. The `bounds`
/// box, when given, becomes the root's `x`/`y`/`width`/`height` placement;
/// the `viewbox` box, when given, becomes its `viewBox`; the aspect-ratio
/// policy is `xMidYMid` when asked to preserve it and `none` otherwise.
pub fn wrap_root(
    data: &str,
    bounds: Option<Aabb>,
    viewbox: Option<Aabb>,
    preserve_aspectratio: bool,
) -> (r: String)
    requires
        bounds matches Some(b) ==> attr_range(b),
        viewbox matches Some(v) ==> attr_range(v),
    ensures
        r@ == wrap_root_spec(data@, bounds, viewbox, preserve_aspectratio),
{
    let mut s = String::new();
    s.append("<svg");
    match bounds {
        Some(b) => {
            append_placement_attrs(&mut s, &b);
        },
        None => {},
    }
    match viewbox {
        Some(v) => {
            append_viewbox_attr(&mut s, &v);
        },
        None => {},
    }
    s.append(" preserveAspectRatio=\"");
    if preserve_aspectratio {
        s.append("xMidYMid");
    } else {
        s.append("none");
    }
    s.append(
        "\" xmlns=\"http://www.w3.org/2000/svg\" xmlns:xlink=\"http://www.w3.org/1999/xlink\">\n",
    );
    s.append(data);
    s.append("\n</svg>");
    proof {
        assert(s@ =~= wrap_root_spec(data@, bounds, viewbox, preserve_aspectratio));
    }
    s
}

impl Svg {
    /// Bounds are finite, in range and ordered.
    pub open spec fn wf(self) -> bool {
        self.bounds.wf()
    }

    /// Merges other fragments into this one, in the given order: markup is
    /// concatenated (each fragment on a new line, so later fragments paint
    /// over earlier ones) and bounds become the bounding union. Merging
    /// zero fragments changes nothing.
    pub fn merge(&mut self, others: Vec<Svg>)
        requires
            old(self).wf(),
            forall|i: int| 0 <= i < others@.len() ==> (#[trigger] others@[i]).wf(),
        ensures
            final(self).svg_data@ == old(self).svg_data@ + merged_text(others@),
            final(self).bounds == merged_bounds(old(self).bounds, others@),
            final(self).wf(),
    {
        let ghost all: Seq<Svg> = others@;
        let mut i: usize = 0;
        while i < others.len()
            invariant
                i <= all.len(),
                others@ == all,
                old(self).wf(),
                forall|k: int| 0 <= k < all.len() ==> (#[trigger] all[k]).wf(),
                self.svg_data@ == old(self).svg_data@ + merged_text(all.subrange(0, i as int)),
                self.bounds == merged_bounds(old(self).bounds, all.subrange(0, i as int)),
                self.bounds.wf(),
            decreases all.len() - i,
        {
            proof {
                reveal_strlit("\n");
            }
            self.svg_data.append("\n");
            self.svg_data.append(others[i].svg_data.as_str());
            let b = self.bounds;
            self.bounds = b.union(&others[i].bounds);
            proof {
                let pre = all.subrange(0, i as int);
                let cur = all.subrange(0, i as int + 1);
                assert(cur.drop_last() =~= pre);
                assert(cur.last() == all[i as int]);
                crate::geom::lemma_union_wf(
                    merged_bounds(old(self).bounds, pre),
                    all[i as int].bounds,
                );
                assert(self.svg_data@ =~= old(self).svg_data@ + merged_text(cur));
            }
            i = i + 1;
        }
        proof {
            assert(all.subrange(0, all.len() as int) =~= all);
        }
    }

    /// Wraps the fragment in a standalone root element (see [`wrap_root`]).
    /// When a placement box is given it also becomes the fragment's new
    /// bounds.
    pub fn wrap_svg_root(
        &mut self,
        bounds: Option<Aabb>,
        viewbox: Option<Aabb>,
        preserve_aspectratio: bool,
    )
        requires
            bounds matches Some(b) ==> attr_range(b),
            viewbox matches Some(v) ==> attr_range(v),
        ensures
            final(self).svg_data@ == wrap_root_spec(
                old(self).svg_data@,
                bounds,
                viewbox,
                preserve_aspectratio,
            ),
            final(self).bounds == (match bounds {
                Some(b) => b,
                None => old(self).bounds,
            }),
    {
        let wrapped = wrap_root(self.svg_data.as_str(), bounds, viewbox, preserve_aspectratio);
        self.svg_data = wrapped;
        match bounds {
            Some(b) => {
                self.bounds = b;
            },
            None => {},
        }
    }

    /// Canonicalizes the fragment by a round trip through the external SVG
    /// parser/serializer (fixed numeric precision) and re-bases the bounds
    /// to origin-relative coordinates: the new bounds run from the origin
    /// to the old extents. The embedded coordinates then no longer match
    /// the original document space, so the caller must track the
    /// translation offset separately. The round trip runs with no font
    /// database and no filesystem access: text elements are dropped, and
    /// image elements keep only data-URL content. On failure the fragment
    /// is unchanged.
    pub fn simplify(&mut self) -> (r: Result<(), RenderError>)
        requires
            old(self).wf(),
        ensures
            r is Ok <==> svg_parses(simplify_input_spec(*old(self))),
            r is Ok ==> final(self).bounds == rebased_spec(old(self).bounds),
            r is Ok ==> final(self).svg_data@ == simplified_markup(
                simplify_input_spec(*old(self)),
                3,
                4,
            ),
            r is Ok && old(self).bounds.spec_extent_x() <= COORD_LIMIT && old(
                self,
            ).bounds.spec_extent_y() <= COORD_LIMIT ==> final(self).wf(),
            r matches Err(e) ==> e is ExternalRenderError && *final(self) == *old(self),
    {
        let rebased = Aabb {
            min_x: crate::geom::Coord::from_subunits(0),
            min_y: crate::geom::Coord::from_subunits(0),
            max_x: crate::geom::Coord::from_subunits(self.bounds.extent_x()),
            max_y: crate::geom::Coord::from_subunits(self.bounds.extent_y()),
        };
        let wrapped = wrap_root(self.svg_data.as_str(), Some(rebased), Some(self.bounds), false);
        match canonicalize_document(wrapped.as_str(), 3, 4) {
            Ok(markup) => {
                self.svg_data = markup;
                self.bounds = rebased;
                Ok(())
            },
            Err(msg) => Err(RenderError::ExternalRenderError(msg)),
        }
    }
}

/// The document that simplification hands to the external parser: the
/// fragment wrapped in a root element placed at the re-based box, with the
/// original bounds as its view box.
pub open spec fn simplify_input_spec(svg: Svg) -> Seq<char> {
    wrap_root_spec(svg.svg_data@, Some(rebased_spec(svg.bounds)), Some(svg.bounds), false)
}

/// The bounds of a simplified fragment: the same extents, moved to the
/// origin.
pub open spec fn rebased_spec(b: Aabb) -> Aabb {
    Aabb {
        min_x: crate::geom::Coord { finite: true, sub: 0 },
        min_y: crate::geom::Coord { finite: true, sub: 0 },
        max_x: crate::geom::Coord { finite: true, sub: b.spec_extent_x() as i64 },
        max_y: crate::geom::Coord { finite: true, sub: b.spec_extent_y() as i64 },
    }
}

} // verus!
