use vstd::prelude::*;

verus! {

/// The abstract state of a [`ShelfPacker`]: the cursor, the height of the
/// current shelf and the atlas size.
pub ghost struct PackerView {
    pub x: int,
    pub y: int,
    pub row_height: int,
    pub width: int,
    pub height: int,
}

/// What asking a packer in state `p` for a `w` by `h` slot does: the new
/// state and the position of the slot, if there was room.
///
/// A slot wider than the atlas is never allocated, and the packer stays as
/// it is. A slot that does not fit in the rest of the current shelf starts a
/// new shelf below it; if the slot does not fit below the atlas height,
/// nothing is allocated (the move to a new shelf is kept).
pub open spec fn allocate_outcome(p: PackerView, w: int, h: int) -> (PackerView, Option<(int, int)>) {
    if w > p.width {
        (p, None)
    } else {
        allocate_within_width(p, w, h)
    }
}

/// [`allocate_outcome`] for a slot no wider than the atlas.
pub open spec fn allocate_within_width(p: PackerView, w: int, h: int) -> (PackerView, Option<(int, int)>) {
    let wraps = p.x + w > p.width;
    let x = if wraps { 0 } else { p.x };
    let y = if wraps { p.y + p.row_height } else { p.y };
    let rh = if wraps { 0 } else { p.row_height };
    if y + h > p.height {
        (PackerView { x, y, row_height: rh, ..p }, None)
    } else {
        (
            PackerView { x: x + w, y, row_height: if h > rh { h } else { rh }, ..p },
            Some((x, y)),
        )
    }
}

/// The arithmetic of [`allocate_outcome`] stays within `u32`.
pub open spec fn allocate_fits_u32(p: PackerView, w: int, h: int) -> bool {
    let wraps = p.x + w > p.width;
    let y = if wraps { p.y + p.row_height } else { p.y };
    w > p.width || {
        &&& p.x + w <= u32::MAX
        &&& y <= u32::MAX
        &&& y + h <= u32::MAX
    }
}

/// Simple shelf packer for atlas generation.
pub struct ShelfPacker {
    current_x: u32,
    current_y: u32,
    row_height: u32,
    atlas_width: u32,
    atlas_height: u32,
}

impl View for ShelfPacker {
    type V = PackerView;

    closed spec fn view(&self) -> PackerView {
        PackerView {
            x: self.current_x as int,
            y: self.current_y as int,
            row_height: self.row_height as int,
            width: self.atlas_width as int,
            height: self.atlas_height as int,
        }
    }
}

impl ShelfPacker {
    /// An empty packer for an atlas of the given size.
    pub fn new(atlas_width: u32, atlas_height: u32) -> (res: Self)
        ensures
            res@ == (PackerView {
                x: 0,
                y: 0,
                row_height: 0,
                width: atlas_width as int,
                height: atlas_height as int,
            }),
    {
        ShelfPacker { current_x: 0, current_y: 0, row_height: 0, atlas_width, atlas_height }
    }

    /// Whether allocating a `width` by `height` slot keeps the packer's
    /// arithmetic within `u32` (see [`ShelfPacker::allocate`]).
    pub fn fits_u32(&self, width: u32, height: u32) -> (res: bool)
        ensures
            res == allocate_fits_u32(self@, width as int, height as int),
    {
        if width > self.atlas_width {
            return true;
        }
        let x_end = self.current_x as u64 + width as u64;
        let y = if x_end > self.atlas_width as u64 {
            self.current_y as u64 + self.row_height as u64
        } else {
            self.current_y as u64
        };
        x_end <= u32::MAX as u64 && y <= u32::MAX as u64 && y + height as u64 <= u32::MAX as u64
    }

    /// Attempts to allocate space for a glyph. Returns `(x, y)` if
    /// successful, or `None` if the atlas is full.
    pub fn allocate(&mut self, width: u32, height: u32) -> (res: Option<(u32, u32)>)
        requires
            allocate_fits_u32(old(self)@, width as int, height as int),
        ensures
            ({
                let (p, slot) = allocate_outcome(old(self)@, width as int, height as int);
                &&& final(self)@ == p
                &&& match res {
                    Some((x, y)) => slot == Some((x as int, y as int)),
                    None => slot is None,
                }
            }),
    {
        if width > self.atlas_width {
            return None;
        }
        if self.current_x + width > self.atlas_width {
            self.current_x = 0;
            self.current_y = self.current_y + self.row_height;
            self.row_height = 0;
        }
        if self.current_y + height > self.atlas_height {
            return None;
        }
        let x = self.current_x;
        let y = self.current_y;
        self.current_x = self.current_x + width;
        self.row_height = if height > self.row_height {
            height
        } else {
            self.row_height
        };
        Some((x, y))
    }
}

/// A placed slot: position and size.
pub ghost struct Slot {
    pub x: int,
    pub y: int,
    pub w: int,
    pub h: int,
}

/// Two slots do not share any point of their interiors.
pub open spec fn slots_disjoint(a: Slot, b: Slot) -> bool {
    a.x + a.w <= b.x || b.x + b.w <= a.x || a.y + a.h <= b.y || b.y + b.h <= a.y
}

/// Serving the requests `reqs` (width, height) one after the other from a
/// packer in state `p`: the final state and the slots that were placed.
pub open spec fn pack_requests(p: PackerView, reqs: Seq<(int, int)>) -> (PackerView, Seq<Slot>)
    decreases reqs.len(),
{
    if reqs.len() == 0 {
        (p, Seq::empty())
    } else {
        let (p1, placed) = pack_requests(p, reqs.drop_last());
        let (w, h) = reqs.last();
        let (p2, slot) = allocate_outcome(p1, w, h);
        match slot {
            Some((x, y)) => (p2, placed.push(Slot { x, y, w, h })),
            None => (p2, placed),
        }
    }
}

spec fn shelf_invariant(p: PackerView, placed: Seq<Slot>) -> bool {
    &&& 0 <= p.x && 0 <= p.y && 0 <= p.row_height
    &&& forall|i: int|
        0 <= i < placed.len() ==> {
            let s = #[trigger] placed[i];
            &&& 0 <= s.x && 0 <= s.y && 0 <= s.w && 0 <= s.h
            &&& s.y + s.h <= p.height
            &&& s.x + s.w <= p.width
            &&& (s.y + s.h <= p.y || (s.y == p.y && s.x + s.w <= p.x && s.h <= p.row_height))
        }
    &&& forall|i: int, j: int|
        0 <= i < j < placed.len() ==> slots_disjoint(#[trigger] placed[i], #[trigger] placed[j])
}

proof fn lemma_pack_invariant(p: PackerView, reqs: Seq<(int, int)>)
    requires
        p.x == 0 && p.y == 0 && p.row_height == 0,
        forall|i: int| 0 <= i < reqs.len() ==> (#[trigger] reqs[i]).0 >= 0 && reqs[i].1 >= 0,
    ensures
        shelf_invariant(pack_requests(p, reqs).0, pack_requests(p, reqs).1),
        pack_requests(p, reqs).0.width == p.width,
        pack_requests(p, reqs).0.height == p.height,
    decreases reqs.len(),
{
    if reqs.len() > 0 {
        let rest = reqs.drop_last();
        assert forall|i: int| 0 <= i < rest.len() implies (#[trigger] rest[i]).0 >= 0 && rest[i].1
            >= 0 by {
            assert(rest[i] == reqs[i]);
        }
        lemma_pack_invariant(p, rest);
        let (p1, placed) = pack_requests(p, rest);
        let (w, h) = reqs.last();
        assert(reqs[reqs.len() - 1] == reqs.last());
        let (p2, slot) = allocate_outcome(p1, w, h);
        if let Some((x, y)) = slot {
            let s = Slot { x, y, w, h };
            let placed2 = placed.push(s);
            assert forall|i: int| 0 <= i < placed.len() implies slots_disjoint(
                #[trigger] placed2[i],
                s,
            ) by {
                assert(placed2[i] == placed[i]);
            }
            assert forall|i: int, j: int| 0 <= i < j < placed2.len() implies slots_disjoint(
                #[trigger] placed2[i],
                #[trigger] placed2[j],
            ) by {
                if j < placed.len() {
                    assert(placed2[i] == placed[i] && placed2[j] == placed[j]);
                }
            }
            assert forall|i: int| 0 <= i < placed2.len() implies {
                let t = #[trigger] placed2[i];
                &&& 0 <= t.x && 0 <= t.y && 0 <= t.w && 0 <= t.h
                &&& t.y + t.h <= p2.height
                &&& t.x + t.w <= p2.width
                &&& (t.y + t.h <= p2.y || (t.y == p2.y && t.x + t.w <= p2.x && t.h
                    <= p2.row_height))
            } by {
                if i < placed.len() {
                    assert(placed2[i] == placed[i]);
                }
            }
        }
    }
}

/// Slots handed out by a packer that starts empty never overlap and never
/// reach below the atlas or past its right edge.
pub proof fn shelf_slots_never_overlap(p: PackerView, reqs: Seq<(int, int)>)
    requires
        p.x == 0 && p.y == 0 && p.row_height == 0,
        forall|i: int| 0 <= i < reqs.len() ==> (#[trigger] reqs[i]).0 >= 0 && reqs[i].1 >= 0,
    ensures
        ({
            let placed = pack_requests(p, reqs).1;
            &&& forall|i: int, j: int|
                0 <= i < j < placed.len() ==> slots_disjoint(#[trigger] placed[i], #[trigger] placed[j])
            &&& forall|i: int|
                0 <= i < placed.len() ==> {
                    let s = #[trigger] placed[i];
                    &&& 0 <= s.x && 0 <= s.y
                    &&& s.y + s.h <= p.height
                    &&& s.x + s.w <= p.width
                }
        }),
{
    lemma_pack_invariant(p, reqs);
}


/// What the packer state says of the slots placed so far: the current shelf
/// is as tall as its tallest slot (zero while it holds no slot of positive
/// height), and the cursor stands right after the last slot, or at the
/// start of a new shelf right below the last slot's shelf.
spec fn shelf_cursor_invariant(p: PackerView, placed: Seq<Slot>) -> bool {
    &&& (p.row_height == 0 || exists|i: int|
        0 <= i < placed.len() && (#[trigger] placed[i]).y == p.y && placed[i].h == p.row_height)
    &&& placed.len() == 0 ==> p.x == 0 && p.y == 0 && p.row_height == 0
    &&& placed.len() > 0 ==> {
        let l = placed.last();
        ||| p.y == l.y && p.x == l.x + l.w
        ||| {
            &&& p.x == 0 && p.row_height == 0
            &&& exists|i: int|
                0 <= i < placed.len() && (#[trigger] placed[i]).y == l.y && p.y == l.y + placed[i].h
            &&& forall|i: int| 0 <= i < placed.len() && (#[trigger] placed[i]).y == l.y ==> placed[i].h <= p.y - l.y
        }
    }
}

/// Slot `j` of `placed` follows slot `j - 1` on its shelf, or starts a new
/// shelf at the left edge, right below the tallest slot of the shelf of
/// slot `j - 1`.
pub open spec fn follows_on_shelf(placed: Seq<Slot>, j: int) -> bool {
    let a = placed[j - 1];
    let b = placed[j];
    ||| b.y == a.y && b.x == a.x + a.w
    ||| {
        &&& b.x == 0
        &&& exists|i: int| 0 <= i < j && (#[trigger] placed[i]).y == a.y && b.y == a.y + placed[i].h
        &&& forall|i: int| 0 <= i < j && (#[trigger] placed[i]).y == a.y ==> placed[i].h <= b.y - a.y
    }
}

proof fn lemma_shelf_order(p: PackerView, reqs: Seq<(int, int)>)
    requires
        p.x == 0 && p.y == 0 && p.row_height == 0,
        forall|i: int| 0 <= i < reqs.len() ==> (#[trigger] reqs[i]).0 >= 0 && reqs[i].1 >= 0,
    ensures
        shelf_cursor_invariant(pack_requests(p, reqs).0, pack_requests(p, reqs).1),
        pack_requests(p, reqs).1.len() > 0 ==> pack_requests(p, reqs).1[0].x == 0
            && pack_requests(p, reqs).1[0].y == 0,
        forall|j: int| 0 < j < pack_requests(p, reqs).1.len() ==> #[trigger] follows_on_shelf(pack_requests(p, reqs).1, j),
    decreases reqs.len(),
{
    if reqs.len() > 0 {
        let rest = reqs.drop_last();
        assert forall|i: int| 0 <= i < rest.len() implies (#[trigger] rest[i]).0 >= 0 && rest[i].1
            >= 0 by {
            assert(rest[i] == reqs[i]);
        }
        lemma_shelf_order(p, rest);
        lemma_pack_invariant(p, rest);
        let (p1, placed) = pack_requests(p, rest);
        let (w, h) = reqs.last();
        assert(reqs[reqs.len() - 1] == reqs.last());
        let (p2, slot) = allocate_outcome(p1, w, h);
        if let Some((x, y)) = slot {
            let s = Slot { x, y, w, h };
            let placed2 = placed.push(s);
            let j = placed.len() as int;
            assert(placed2[j] == s);
            assert forall|i: int| 0 <= i < j implies placed2[i] == placed[i] by {}
            if j == 0 {
                assert(x == 0 && y == 0);
            } else {
                let l = placed.last();
                assert(placed2[j - 1] == l);
                let wraps = p1.x + w > p1.width;
                if wraps {
                    // The cursor stood right after the last slot: p1.x > 0.
                    assert(p1.y == l.y && p1.x == l.x + l.w);
                    if p1.row_height == 0 {
                        assert(l.h == 0) by {
                            assert(placed[j - 1] == l);
                        }
                        assert(placed2[j - 1].y == l.y && y == l.y + placed2[j - 1].h);
                    } else {
                        let i0 = choose|i: int|
                            0 <= i < placed.len() && (#[trigger] placed[i]).y == p1.y && placed[i].h
                                == p1.row_height;
                        assert(placed2[i0] == placed[i0]);
                    }
                    assert forall|i: int| 0 <= i < j && (#[trigger] placed2[i]).y == l.y implies placed2[i].h
                        <= y - l.y by {
                        assert(placed2[i] == placed[i]);
                    }
                    assert(follows_on_shelf(placed2, j));
                } else {
                    if p1.y == l.y && p1.x == l.x + l.w {
                        assert(follows_on_shelf(placed2, j));
                    } else {
                        let i0 = choose|i: int|
                            0 <= i < placed.len() && (#[trigger] placed[i]).y == l.y && p1.y == l.y
                                + placed[i].h;
                        assert(placed2[i0] == placed[i0]);
                        assert forall|i: int| 0 <= i < j && (#[trigger] placed2[i]).y == l.y implies placed2[i].h
                            <= y - l.y by {
                            assert(placed2[i] == placed[i]);
                        }
                        assert(follows_on_shelf(placed2, j));
                    }
                }
            }
            assert forall|k: int| 0 < k < placed2.len() implies #[trigger] follows_on_shelf(placed2, k) by {
                if k < j {
                    assert(follows_on_shelf(placed, k));
                    let a = placed[k - 1];
                    let b = placed[k];
                    assert(placed2[k - 1] == a && placed2[k] == b);
                    if !(b.y == a.y && b.x == a.x + a.w) {
                        let i0 = choose|i: int| 0 <= i < k && (#[trigger] placed[i]).y == a.y && b.y == a.y + placed[i].h;
                        assert(placed2[i0] == placed[i0]);
                        assert forall|i: int| 0 <= i < k && (#[trigger] placed2[i]).y == a.y implies placed2[i].h
                            <= b.y - a.y by {
                            assert(placed2[i] == placed[i]);
                        }
                    }
                }
            }
            // The new cursor stands right after the new slot; the shelf
            // height is reached by the new slot or by an earlier one.
            assert(p2.y == s.y && p2.x == s.x + s.w);
            if p2.row_height != 0 {
                if h == p2.row_height {
                    assert(placed2[j].y == p2.y && placed2[j].h == p2.row_height);
                } else {
                    assert(!wraps_of(p1, w));
                    let i0 = choose|i: int|
                        0 <= i < placed.len() && (#[trigger] placed[i]).y == p1.y && placed[i].h
                            == p1.row_height;
                    assert(placed2[i0] == placed[i0]);
                }
            }
            assert(placed2.last() == s);
            assert(shelf_cursor_invariant(p2, placed2));
        } else {
            if w <= p1.width && p1.x + w > p1.width && placed.len() > 0 {
                let l = placed.last();
                assert(p1.y == l.y && p1.x == l.x + l.w);
                if p1.row_height == 0 {
                    assert(placed[placed.len() - 1] == l);
                } else {
                    let i0 = choose|i: int|
                        0 <= i < placed.len() && (#[trigger] placed[i]).y == p1.y && placed[i].h
                            == p1.row_height;
                    assert(placed[i0].y == l.y);
                }
            }
            assert(shelf_cursor_invariant(p2, placed));
        }
    }
}

/// Whether a `w`-wide slot starts a new shelf from state `p`.
spec fn wraps_of(p: PackerView, w: int) -> bool {
    p.x + w > p.width
}

/// The shelf layout of a packer that starts empty: the first slot goes to
/// the top left corner; each later slot goes right after the one before it
/// on the same shelf, or starts a new shelf at the left edge, exactly as
/// far below the previous shelf as the tallest slot on that shelf.
pub proof fn shelves_stack_by_tallest_slot(p: PackerView, reqs: Seq<(int, int)>)
    requires
        p.x == 0 && p.y == 0 && p.row_height == 0,
        forall|i: int| 0 <= i < reqs.len() ==> (#[trigger] reqs[i]).0 >= 0 && reqs[i].1 >= 0,
    ensures
        ({
            let placed = pack_requests(p, reqs).1;
            &&& placed.len() > 0 ==> placed[0].x == 0 && placed[0].y == 0
            &&& forall|j: int| 0 < j < placed.len() ==> #[trigger] follows_on_shelf(placed, j)
        }),
{
    lemma_shelf_order(p, reqs);
}


/// A fresh packer puts the first slot in the top left corner whenever it
/// fits in the atlas, and refuses it otherwise.
pub proof fn fresh_packer_places_first_slot_at_origin(p: PackerView, w: int, h: int)
    requires
        p.x == 0 && p.y == 0 && p.row_height == 0,
        w >= 0 && h >= 0,
    ensures
        pack_requests(p, seq![(w, h)]).1 == if w <= p.width && h <= p.height {
            seq![Slot { x: 0, y: 0, w, h }]
        } else {
            Seq::<Slot>::empty()
        },
{
    let reqs = seq![(w, h)];
    assert(reqs.drop_last() =~= Seq::<(int, int)>::empty());
    assert(reqs.last() == (w, h));
    assert(pack_requests(p, reqs.drop_last()) == (p, Seq::<Slot>::empty()));
    if w <= p.width && h <= p.height {
        assert(Seq::<Slot>::empty().push(Slot { x: 0, y: 0, w, h }) =~= seq![Slot { x: 0, y: 0, w, h }]);
    }
}

/// Right after a slot was placed, the next slot goes beside it on the same
/// shelf whenever it fits there; where it does not fit beside it but fits
/// in the atlas width, it goes to the left edge of a new shelf right below
/// the tallest slot `tallest` of the last slot's shelf, whenever it fits
/// above the atlas bottom there. A slot is refused only where it fits in
/// neither place.
pub proof fn packer_places_slot_where_it_fits(
    p: PackerView,
    reqs: Seq<(int, int)>,
    w: int,
    h: int,
    tallest: int,
)
    requires
        p.x == 0 && p.y == 0 && p.row_height == 0,
        forall|i: int| 0 <= i < reqs.len() ==> (#[trigger] reqs[i]).0 >= 0 && reqs[i].1 >= 0,
        w >= 0 && h >= 0,
        reqs.len() > 0,
        pack_requests(p, reqs).1.len() == pack_requests(p, reqs.drop_last()).1.len() + 1,
    ensures
        ({
            let placed = pack_requests(p, reqs).1;
            let l = placed.last();
            let next = pack_requests(p, reqs.push((w, h))).1;
            &&& w <= p.width && l.x + l.w + w <= p.width && l.y + h <= p.height ==> next
                == placed.push(Slot { x: l.x + l.w, y: l.y, w, h })
            &&& (w <= p.width && l.x + l.w + w > p.width && l.y + tallest + h <= p.height
                && (exists|i: int| 0 <= i < placed.len() && (#[trigger] placed[i]).y == l.y && placed[i].h == tallest)
                && (forall|i: int| 0 <= i < placed.len() && (#[trigger] placed[i]).y == l.y ==> placed[i].h <= tallest))
                ==> next == placed.push(Slot { x: 0, y: l.y + tallest, w, h })
        }),
{
    let rest = reqs.drop_last();
    assert forall|i: int| 0 <= i < rest.len() implies (#[trigger] rest[i]).0 >= 0 && rest[i].1 >= 0 by {
        assert(rest[i] == reqs[i]);
    }
    lemma_pack_invariant(p, rest);
    lemma_pack_invariant(p, reqs);
    lemma_shelf_order(p, reqs);
    let (p0, placed0) = pack_requests(p, rest);
    let (p1, placed) = pack_requests(p, reqs);
    let l = placed.last();
    assert(l.y == p1.y && l.x + l.w == p1.x);
    assert(reqs.push((w, h)).drop_last() =~= reqs);
    assert(reqs.push((w, h)).last() == (w, h));
    if (w <= p.width && l.x + l.w + w > p.width && l.y + tallest + h <= p.height
        && (exists|i: int| 0 <= i < placed.len() && (#[trigger] placed[i]).y == l.y && placed[i].h == tallest)
        && (forall|i: int| 0 <= i < placed.len() && (#[trigger] placed[i]).y == l.y ==> placed[i].h <= tallest)) {
        let i0 = choose|i: int| 0 <= i < placed.len() && (#[trigger] placed[i]).y == l.y && placed[i].h == tallest;
        assert(placed[i0].h <= p1.row_height);
        if p1.row_height > 0 {
            let i1 = choose|i: int|
                0 <= i < placed.len() && (#[trigger] placed[i]).y == p1.y && placed[i].h == p1.row_height;
            assert(placed[i1].h <= tallest);
        }
        assert(p1.row_height == tallest);
    }
}


/// A slot that does not fit beside the last slot and, on a new shelf, not
/// above the atlas bottom is refused, but its shelf stays closed: the next
/// slot that fits in the atlas width goes to the left edge of the new shelf
/// right below the tallest slot `tallest` of the last slot's shelf (where
/// it fits above the bottom), even if it would have fitted beside the last
/// slot.
pub proof fn refused_slot_still_closes_its_shelf(
    p: PackerView,
    reqs: Seq<(int, int)>,
    w: int,
    h: int,
    w2: int,
    h2: int,
    tallest: int,
)
    requires
        p.x == 0 && p.y == 0 && p.row_height == 0,
        forall|i: int| 0 <= i < reqs.len() ==> (#[trigger] reqs[i]).0 >= 0 && reqs[i].1 >= 0,
        w >= 0 && h >= 0 && w2 >= 0 && h2 >= 0,
        reqs.len() > 0,
        pack_requests(p, reqs).1.len() == pack_requests(p, reqs.drop_last()).1.len() + 1,
    ensures
        ({
            let placed = pack_requests(p, reqs).1;
            let l = placed.last();
            let after = pack_requests(p, reqs.push((w, h)));
            let next = pack_requests(p, reqs.push((w, h)).push((w2, h2))).1;
            (w <= p.width && l.x + l.w + w > p.width && w2 <= p.width && l.y + tallest + h2 <= p.height
                && after.1 == placed
                && (exists|i: int| 0 <= i < placed.len() && (#[trigger] placed[i]).y == l.y && placed[i].h == tallest)
                && (forall|i: int| 0 <= i < placed.len() && (#[trigger] placed[i]).y == l.y ==> placed[i].h <= tallest))
                ==> next == placed.push(Slot { x: 0, y: l.y + tallest, w: w2, h: h2 })
        }),
{
    let rest = reqs.drop_last();
    assert forall|i: int| 0 <= i < rest.len() implies (#[trigger] rest[i]).0 >= 0 && rest[i].1 >= 0 by {
        assert(rest[i] == reqs[i]);
    }
    lemma_pack_invariant(p, rest);
    lemma_pack_invariant(p, reqs);
    lemma_shelf_order(p, reqs);
    let (p1, placed) = pack_requests(p, reqs);
    let l = placed.last();
    assert(l.y == p1.y && l.x + l.w == p1.x);
    let r1 = reqs.push((w, h));
    assert(r1.drop_last() =~= reqs);
    assert(r1.last() == (w, h));
    let r2 = r1.push((w2, h2));
    assert(r2.drop_last() =~= r1);
    assert(r2.last() == (w2, h2));
    if (w <= p.width && l.x + l.w + w > p.width && w2 <= p.width && l.y + tallest + h2 <= p.height
        && pack_requests(p, r1).1 == placed
        && (exists|i: int| 0 <= i < placed.len() && (#[trigger] placed[i]).y == l.y && placed[i].h == tallest)
        && (forall|i: int| 0 <= i < placed.len() && (#[trigger] placed[i]).y == l.y ==> placed[i].h <= tallest)) {
        let i0 = choose|i: int| 0 <= i < placed.len() && (#[trigger] placed[i]).y == l.y && placed[i].h == tallest;
        assert(placed[i0].h <= p1.row_height);
        if p1.row_height > 0 {
            let i1 = choose|i: int|
                0 <= i < placed.len() && (#[trigger] placed[i]).y == p1.y && placed[i].h == p1.row_height;
            assert(placed[i1].h <= tallest);
        }
        assert(p1.row_height == tallest);
        let p2 = pack_requests(p, r1).0;
        assert(p2.x == 0 && p2.y == l.y + tallest && p2.width == p.width && p2.height == p.height);
    }
}

} // verus!
