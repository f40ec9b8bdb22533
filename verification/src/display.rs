//! Display geometry: the bounds of one display and the anchor-point lookup
//! that selects which display a capture is taken from.

use vstd::prelude::*;

verus! {

/// The x coordinate of the fixed anchor point used to pick "the" display.
pub const ANCHOR_X: i32 = 100;

/// The y coordinate of the fixed anchor point used to pick "the" display.
pub const ANCHOR_Y: i32 = 100;

/// What the capture logic reads of one display: its identifier and its
/// bounding rectangle in screen coordinates.
#[derive(Clone, Copy, Debug, PartialEq, Eq, Structural)]
pub struct DisplayBounds {
    /// Identifier the collaborator reports for this display.
    pub id: u32,
    /// Left edge of the display.
    pub x: i32,
    /// Top edge of the display.
    pub y: i32,
    /// Width in pixels.
    pub width: u32,
    /// Height in pixels.
    pub height: u32,
}

/// A point lies on a display when it is inside the half-open rectangle
/// spanned by the display's origin and its size.
pub open spec fn spec_contains_point(d: DisplayBounds, px: int, py: int) -> bool {
    &&& d.x <= px < d.x + d.width
    &&& d.y <= py < d.y + d.height
}

/// The first display of the sequence that contains the point, if any.
pub open spec fn spec_find_display(ds: Seq<DisplayBounds>, px: int, py: int) -> Option<int>
    decreases ds.len(),
{
    if ds.len() == 0 {
        None
    } else if spec_contains_point(ds[0], px, py) {
        Some(0)
    } else {
        match spec_find_display(ds.drop_first(), px, py) {
            Some(i) => Some(i + 1),
            None => None,
        }
    }
}

/// The index `spec_find_display` returns is the first hit: it is in range,
/// its display contains the point, and no earlier display does; a `None`
/// means no display at all contains the point.
pub proof fn lemma_find_display_props(ds: Seq<DisplayBounds>, px: int, py: int)
    ensures
        match spec_find_display(ds, px, py) {
            Some(i) => {
                &&& 0 <= i < ds.len()
                &&& spec_contains_point(ds[i], px, py)
                &&& forall|j: int| 0 <= j < i ==> !spec_contains_point(ds[j], px, py)
            },
            None => forall|j: int| 0 <= j < ds.len() ==> !spec_contains_point(ds[j], px, py),
        },
    decreases ds.len(),
{
    if ds.len() != 0 && !spec_contains_point(ds[0], px, py) {
        lemma_find_display_props(ds.drop_first(), px, py);
        match spec_find_display(ds.drop_first(), px, py) {
            Some(i) => {
                assert(ds.drop_first()[i] == ds[i + 1]);
                assert forall|j: int| 0 <= j < i + 1 implies !spec_contains_point(
                    ds[j],
                    px,
                    py,
                ) by {
                    if j >= 1 {
                        assert(ds.drop_first()[j - 1] == ds[j]);
                    }
                }
            },
            None => {
                assert forall|j: int| 0 <= j < ds.len() implies !spec_contains_point(
                    ds[j],
                    px,
                    py,
                ) by {
                    if j >= 1 {
                        assert(ds.drop_first()[j - 1] == ds[j]);
                    }
                }
            },
        }
    }
}

/// A first hit determines the lookup result: if `ds[i]` contains the point
/// and no earlier display does, the lookup returns exactly `i`.
pub proof fn lemma_find_display_first_hit(ds: Seq<DisplayBounds>, px: int, py: int, i: int)
    requires
        0 <= i < ds.len(),
        spec_contains_point(ds[i], px, py),
        forall|j: int| 0 <= j < i ==> !spec_contains_point(ds[j], px, py),
    ensures
        spec_find_display(ds, px, py) == Some(i),
    decreases ds.len(),
{
    if i != 0 {
        assert(ds.drop_first()[i - 1] == ds[i]);
        assert forall|j: int| 0 <= j < i - 1 implies !spec_contains_point(
            ds.drop_first()[j],
            px,
            py,
        ) by {
            assert(ds.drop_first()[j] == ds[j + 1]);
        }
        lemma_find_display_first_hit(ds.drop_first(), px, py, i - 1);
    }
}

/// No hit anywhere means the lookup fails.
pub proof fn lemma_find_display_none(ds: Seq<DisplayBounds>, px: int, py: int)
    requires
        forall|j: int| 0 <= j < ds.len() ==> !spec_contains_point(ds[j], px, py),
    ensures
        spec_find_display(ds, px, py) is None,
    decreases ds.len(),
{
    if ds.len() != 0 {
        assert forall|j: int| 0 <= j < ds.drop_first().len() implies !spec_contains_point(
            ds.drop_first()[j],
            px,
            py,
        ) by {
            assert(ds.drop_first()[j] == ds[j + 1]);
        }
        lemma_find_display_none(ds.drop_first(), px, py);
    }
}

impl DisplayBounds {
    /// Whether the point `(px, py)` lies on this display.
    pub fn contains_point(&self, px: i32, py: i32) -> (r: bool)
        ensures
            r == spec_contains_point(*self, px as int, py as int),
    {
        let x0: i64 = self.x as i64;
        let y0: i64 = self.y as i64;
        let w: i64 = self.width as i64;
        let h: i64 = self.height as i64;
        let qx: i64 = px as i64;
        let qy: i64 = py as i64;
        x0 <= qx && qx < x0 + w && y0 <= qy && qy < y0 + h
    }
}

/// Index of the first display in `ds` that contains the point `(px, py)`,
/// or `None` when no display does.
pub fn find_display_at_point(ds: &Vec<DisplayBounds>, px: i32, py: i32) -> (r: Option<usize>)
    ensures
        match r {
            Some(i) => spec_find_display(ds@, px as int, py as int) == Some(i as int),
            None => spec_find_display(ds@, px as int, py as int) is None,
        },
{
    let mut k: usize = 0;
    while k < ds.len()
        invariant
            k <= ds.len(),
            forall|j: int| 0 <= j < k ==> !spec_contains_point(ds@[j], px as int, py as int),
        decreases ds.len() - k,
    {
        if ds[k].contains_point(px, py) {
            proof {
                lemma_find_display_first_hit(ds@, px as int, py as int, k as int);
            }
            return Some(k);
        }
        k = k + 1;
    }
    proof {
        lemma_find_display_none(ds@, px as int, py as int);
    }
    None
}

} // verus!
