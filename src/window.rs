//! A window: children under string keys, kept in key order, placed by a
//! layout pass and drawn in that order.

use vstd::prelude::*;
use crate::draw::{prims, DrawCmd, DrawError, Prim};
use crate::geometry::{clamp_to_coord, half, point_at, Point, Size};
use crate::key_order::{
    key_less, key_lt, lemma_ascending_unique, lemma_key_lt_irreflexive, lemma_key_lt_total, lemma_key_lt_transitive,
    strictly_ascending,
};
use crate::ui::{Widget, WidgetView, UI};

verus! {

/// Space between the window's corner and its children, in pixels.
pub const PADDING: i64 = 10;

/// Width of a new window.
pub const DEFAULT_WIDTH: u32 = 200;

/// Height of a new window.
pub const DEFAULT_HEIGHT: u32 = 10;

/// Width used in layout for a child that reports no size.
pub const DEFAULT_CHILD_WIDTH: u32 = 0;

/// Height used in layout for a child that reports no size.
pub const DEFAULT_CHILD_HEIGHT: u32 = 20;

/// The size that layout uses for a child that reports `s`.
pub open spec fn layout_size(s: Option<Size>) -> Size {
    match s {
        Some(v) => v,
        None => Size { w: DEFAULT_CHILD_WIDTH, h: DEFAULT_CHILD_HEIGHT },
    }
}

/// Where layout puts the `i`-th child (in key order), of layout size `size`,
/// in a window at `origin`.
pub open spec fn slot(origin: Point, i: int, size: Size) -> Point {
    point_at(origin.x + PADDING, origin.y + half(size.h) * i + PADDING)
}

/// What a window holds: its children in key order.
pub struct WindowView {
    pub pos: Point,
    pub width: u32,
    pub height: u32,
    pub keys: Seq<Seq<char>>,
    pub children: Seq<WidgetView>,
}

impl WindowView {
    /// One child per key, the keys strictly ascending.
    pub open spec fn wf(self) -> bool {
        &&& self.keys.len() == self.children.len()
        &&& strictly_ascending(self.keys)
    }

    /// Where layout puts the `i`-th child.
    pub open spec fn slot(self, i: int) -> Point {
        slot(self.pos, i, layout_size(self.children[i].size()))
    }

    /// The child under `k`, where `self.keys` contains `k`.
    pub open spec fn child_of(self, k: Seq<char>) -> WidgetView {
        self.children[self.keys.index_of(k)]
    }

    /// The child under `k`, if there is one.
    pub open spec fn lookup(self, k: Seq<char>) -> Option<WidgetView> {
        if self.keys.contains(k) {
            Some(self.child_of(k))
        } else {
            None
        }
    }

    /// The child under `x` once `w` is put under `k`, before layout.
    pub open spec fn child_after_insert(self, k: Seq<char>, w: WidgetView, x: Seq<char>) -> WidgetView {
        if x == k {
            w
        } else {
            self.child_of(x)
        }
    }

    /// The primitives of the children in key order, each child's text
    /// measured as the entry of `measured` at its index.
    pub open spec fn draw(self, measured: Seq<Option<Size>>) -> Seq<Prim> {
        draw_children(self.children, measured)
    }
}

/// The primitives of `children` in order, child `i`'s text measured as
/// `measured[i]`.
pub open spec fn draw_children(children: Seq<WidgetView>, measured: Seq<Option<Size>>) -> Seq<Prim>
    decreases children.len(),
{
    if children.len() == 0 {
        seq![]
    } else {
        let n = children.len() - 1;
        draw_children(children.take(n), measured) + children[n].draw(measured[n]->Some_0)
    }
}

/// The measurement at `i`, if `measured` gives one.
pub open spec fn measured_at(measured: Seq<Option<Size>>, i: int) -> Option<Size> {
    if 0 <= i < measured.len() {
        measured[i]
    } else {
        None
    }
}

/// The view of an optional widget.
pub open spec fn opt_view(w: Option<Widget>) -> Option<WidgetView> {
    match w {
        Some(v) => Some(v@),
        None => None,
    }
}

/// In a well-formed window, each key is found at its own index.
pub proof fn lemma_index_of_key(v: WindowView, i: int)
    requires
        v.wf(),
        0 <= i < v.keys.len(),
    ensures
        v.keys.contains(v.keys[i]),
        v.keys.index_of(v.keys[i]) == i,
        v.child_of(v.keys[i]) == v.children[i],
{
    assert(v.keys[i] == v.keys[i]);
    let j = v.keys.index_of(v.keys[i]);
    if j < i {
        assert(key_lt(v.keys[j], v.keys[i]));
        lemma_key_lt_irreflexive(v.keys[i]);
    } else if j > i {
        assert(key_lt(v.keys[i], v.keys[j]));
        lemma_key_lt_irreflexive(v.keys[i]);
    }
}

/// Children are laid out and drawn in key order, whatever order they were
/// inserted in: two windows with the same keys hold them in the same order.
pub proof fn lemma_key_order_independent(a: WindowView, b: WindowView)
    requires
        a.wf(),
        b.wf(),
        forall|x: Seq<char>| #[trigger] a.keys.contains(x) <==> b.keys.contains(x),
    ensures
        a.keys == b.keys,
{
    assert(a.keys.to_set() =~= b.keys.to_set());
    lemma_ascending_unique(a.keys, b.keys);
}

/// A key stands at one index only, so a replaced child leaves no copy
/// under its key.
pub proof fn lemma_key_held_once(v: WindowView, i: int, j: int)
    requires
        v.wf(),
        0 <= i < v.keys.len(),
        0 <= j < v.keys.len(),
        v.keys[i] == v.keys[j],
    ensures
        i == j,
{
    lemma_key_lt_irreflexive(v.keys[i]);
    if i < j {
        assert(key_lt(v.keys[i], v.keys[j]));
    } else if j < i {
        assert(key_lt(v.keys[j], v.keys[i]));
    }
}

/// A window at a position, holding children under keys.
pub struct Window {
    uielements: Vec<(String, Widget)>,
    pos: Point,
    width: u32,
    height: u32,
}

impl View for Window {
    type V = WindowView;

    closed spec fn view(&self) -> WindowView {
        WindowView {
            pos: self.pos,
            width: self.width,
            height: self.height,
            keys: self.uielements@.map_values(|e: (String, Widget)| e.0@),
            children: self.uielements@.map_values(|e: (String, Widget)| e.1@),
        }
    }
}

/// Where layout puts the `i`-th child of layout size `size`.
fn slot_point(origin: Point, i: usize, size: Size) -> (r: Point)
    ensures
        r == slot(origin, i as int, size),
{
    let hh: u32 = size.h / 2;
    let step: i128 = hh as i128;
    let idx: i128 = i as i128;
    assert(0 <= step * idx <= 0x8000_0000 * 0x1_0000_0000_0000_0000) by (nonlinear_arith)
        requires
            0 <= step <= 0x8000_0000,
            0 <= idx <= 0x1_0000_0000_0000_0000,
    ;
    let x = clamp_to_coord(origin.x as i128 + PADDING as i128);
    let y = clamp_to_coord(origin.y as i128 + step * idx + PADDING as i128);
    Point { x, y }
}

impl Window {
    #[verifier::type_invariant]
    spec fn keys_ascending(self) -> bool {
        strictly_ascending(self@.keys)
    }

    /// An empty window with its corner at `(x, y)`.
    pub fn new(x: i64, y: i64) -> (r: Window)
        ensures
            r@.wf(),
            r@.pos == (Point { x, y }),
            r@.width == DEFAULT_WIDTH,
            r@.height == DEFAULT_HEIGHT,
            r@.keys.len() == 0,
    {
        let r = Window {
            uielements: Vec::new(),
            pos: Point { x, y },
            width: DEFAULT_WIDTH,
            height: DEFAULT_HEIGHT,
        };
        assert(r@.keys.len() == 0);
        r
    }

    /// Places every child: the `i`-th in key order goes to `slot(i)`.
    pub fn layout_window(&mut self)
        ensures
            final(self)@.wf(),
            final(self)@.pos == old(self)@.pos,
            final(self)@.width == old(self)@.width,
            final(self)@.height == old(self)@.height,
            final(self)@.keys == old(self)@.keys,
            final(self)@.children.len() == old(self)@.children.len(),
            forall|i: int|
                0 <= i < final(self)@.children.len() ==> #[trigger] final(self)@.children[i]
                    == old(self)@.children[i].placed_at(final(self)@.slot(i)),
    {
        proof {
            use_type_invariant(&*self);
        }
        let ghost start = self@;
        let mut items: Vec<(String, Widget)> = Vec::new();
        std::mem::swap(&mut self.uielements, &mut items);
        let n = items.len();
        let mut i: usize = 0;
        while i < n
            invariant
                n == items.len(),
                i <= n,
                self.pos == start.pos,
                items@.map_values(|e: (String, Widget)| e.0@) == start.keys,
                start.children.len() == n,
                forall|j: int|
                    0 <= j < i ==> #[trigger] items@[j].1@ == start.children[j].placed_at(
                        slot(start.pos, j, layout_size(start.children[j].size())),
                    ),
                forall|j: int| i <= j < n ==> #[trigger] items@[j].1@ == start.children[j],
            decreases n - i,
        {
            let size = match items[i].1.get_size() {
                Some(v) => v,
                None => Size { w: DEFAULT_CHILD_WIDTH, h: DEFAULT_CHILD_HEIGHT },
            };
            assert(items@[i as int].1@ == start.children[i as int]);
            assert(size == layout_size(start.children[i as int].size()));
            let p = slot_point(self.pos, i, size);
            let ghost before = items@;
            items[i].1.set_position(p);
            assert(items@[i as int].1@ == before[i as int].1@.placed_at(p));
            assert(forall|j: int| 0 <= j < n && j != i ==> items@[j] == before[j]);
            assert(items@.map_values(|e: (String, Widget)| e.0@) =~= before.map_values(
                |e: (String, Widget)| e.0@,
            ));
            assert forall|j: int| 0 <= j <= i implies #[trigger] items@[j].1@
                == start.children[j].placed_at(
                slot(start.pos, j, layout_size(start.children[j].size())),
            ) by {
                if j < i {
                    assert(items@[j] == before[j]);
                    assert(before[j].1@ == start.children[j].placed_at(
                        slot(start.pos, j, layout_size(start.children[j].size())),
                    ));
                } else {
                    assert(before[j].1@ == start.children[j]);
                    assert(p == slot(start.pos, j, layout_size(start.children[j].size())));
                }
            }
            assert forall|j: int| i < j < n implies #[trigger] items@[j].1@ == start.children[j] by {
                assert(items@[j] == before[j]);
            }
            i = i + 1;
        }
        self.uielements = items;
        assert forall|i: int| 0 <= i < n implies #[trigger] self@.children[i] == start.children[
            i
        ].placed_at(self@.slot(i)) by {
            assert(self@.children[i] == items@[i].1@);
        }
    }

    /// Puts `elm` under `index`, replacing and handing back the child that
    /// was there, then lays out every child again.
    pub fn insert_elm(&mut self, index: &str, elm: Widget) -> (r: Option<Widget>)
        ensures
            final(self)@.wf(),
            final(self)@.pos == old(self)@.pos,
            final(self)@.width == old(self)@.width,
            final(self)@.height == old(self)@.height,
            forall|x: Seq<char>|
                #[trigger] final(self)@.keys.contains(x) <==> (old(self)@.keys.contains(x) || x == index@),
            forall|i: int|
                0 <= i < final(self)@.keys.len() ==> #[trigger] final(self)@.children[i]
                    == old(self)@.child_after_insert(index@, elm@, final(self)@.keys[i]).placed_at(
                    final(self)@.slot(i),
                ),
            opt_view(r) == old(self)@.lookup(index@),
    {
        proof {
            use_type_invariant(&*self);
        }
        let ghost start = self@;
        let ghost k = index@;
        let ghost elm_view = elm@;
        let mut items: Vec<(String, Widget)> = Vec::new();
        std::mem::swap(&mut self.uielements, &mut items);
        assert(items@.map_values(|e: (String, Widget)| e.0@) == start.keys);
        assert(items@.map_values(|e: (String, Widget)| e.1@) == start.children);
        let n = items.len();
        let mut j: usize = 0;
        let mut scanning = true;
        while scanning && j < n
            invariant
                n == items.len(),
                j <= n,
                k == index@,
                items@.map_values(|e: (String, Widget)| e.0@) == start.keys,
                items@.map_values(|e: (String, Widget)| e.1@) == start.children,
                forall|m: int| 0 <= m < j ==> #[trigger] key_lt(start.keys[m], k),
                !scanning ==> j < n && !key_lt(start.keys[j as int], k),
            decreases n - j + if scanning {
                1int
            } else {
                0int
            },
        {
            assert(start.keys[j as int] == items@[j as int].0@);
            if key_less(items[j].0.as_str(), index) {
                j = j + 1;
            } else {
                scanning = false;
            }
        }
        let found = j < n && !key_less(index, items[j].0.as_str());
        proof {
            if j < n {
                assert(start.keys[j as int] == items@[j as int].0@);
            }
            if found {
                if start.keys[j as int] != k {
                    lemma_key_lt_total(start.keys[j as int], k);
                }
            } else {
                assert forall|m: int| 0 <= m < start.keys.len() implies start.keys[m] != k by {
                    lemma_key_lt_irreflexive(k);
                    if m > j {
                        lemma_key_lt_transitive(k, start.keys[j as int], start.keys[m]);
                    }
                }
            }
        }
        let r = if found {
            let (key, prior) = items.remove(j);
            items.insert(j, (key, elm));
            proof {
                lemma_index_of_key(start, j as int);
            }
            Some(prior)
        } else {
            items.insert(j, (index.to_owned(), elm));
            None
        };
        let ghost mid_keys = items@.map_values(|e: (String, Widget)| e.0@);
        let ghost mid_children = items@.map_values(|e: (String, Widget)| e.1@);
        proof {
            if found {
                assert(mid_keys =~= start.keys);
            } else {
                assert(mid_keys =~= start.keys.insert(j as int, k));
                assert forall|a: int, b: int| 0 <= a < b < mid_keys.len() implies #[trigger] key_lt(
                    mid_keys[a],
                    mid_keys[b],
                ) by {
                    if a == j && b > j + 1 {
                        lemma_key_lt_transitive(k, start.keys[j as int], start.keys[b - 1]);
                    } else if a < j && b > j {
                        assert(key_lt(start.keys[a], start.keys[b - 1]));
                    } else if a > j {
                        assert(key_lt(start.keys[a - 1], start.keys[b - 1]));
                    }
                }
            }
            assert(mid_keys[j as int] == k);
            assert(mid_children[j as int] == elm_view);
        }
        self.uielements = items;
        let ghost mid = self@;
        proof {
            assert(mid.keys == mid_keys);
            assert(mid.children == mid_children);
            assert(mid.keys.len() == mid.children.len());
            // Each other child is the one that stood under its key before.
            assert forall|i: int| 0 <= i < mid.keys.len() && i != j implies mid.keys[i] != k
                && #[trigger] mid.children[i] == start.child_of(mid.keys[i]) by {
                lemma_key_lt_irreflexive(k);
                let i0 = if found || i < j {
                    i
                } else {
                    i - 1
                };
                lemma_index_of_key(start, i0);
            }
            assert forall|x: Seq<char>| #[trigger] mid.keys.contains(x) == start.keys.to_set().insert(
                k,
            ).contains(x) by {
                if mid.keys.contains(x) && x != k {
                    let i = choose|i: int| 0 <= i < mid.keys.len() && mid.keys[i] == x;
                    let i0 = if found || i < j {
                        i
                    } else {
                        i - 1
                    };
                    assert(start.keys[i0] == x);
                }
                if start.keys.contains(x) {
                    let i0 = choose|i: int| 0 <= i < start.keys.len() && start.keys[i] == x;
                    let i = if found || i0 < j {
                        i0
                    } else {
                        i0 + 1
                    };
                    assert(mid.keys[i] == x);
                }
                if x == k {
                    assert(mid.keys[j as int] == x);
                }
            }
        }
        self.layout_window();
        proof {
            assert forall|i: int| 0 <= i < self@.keys.len() implies #[trigger] self@.children[i]
                == start.child_after_insert(k, elm_view, self@.keys[i]).placed_at(self@.slot(i)) by {
                if i != j {
                    assert(mid.keys[i] != k);
                }
            }
        }
        r
    }

    /// The texts to measure before drawing, in key order.
    pub fn texts(&self) -> (r: Vec<String>)
        ensures
            r@.len() == self@.children.len(),
            forall|i: int| 0 <= i < r@.len() ==> #[trigger] r@[i]@ == self@.children[i].text(),
    {
        let n = self.uielements.len();
        let mut r: Vec<String> = Vec::new();
        let mut i: usize = 0;
        while i < n
            invariant
                n == self.uielements.len(),
                n == self@.children.len(),
                i <= n,
                r@.len() == i,
                forall|j: int| 0 <= j < i ==> #[trigger] r@[j]@ == self@.children[j].text(),
            decreases n - i,
        {
            assert(self@.children[i as int] == self.uielements@[i as int].1@);
            r.push(self.uielements[i].1.text().to_owned());
            i = i + 1;
        }
        r
    }

    /// The keys, in key order.
    pub fn keys(&self) -> (r: Vec<String>)
        ensures
            r@.len() == self@.keys.len(),
            forall|i: int| 0 <= i < r@.len() ==> #[trigger] r@[i]@ == self@.keys[i],
    {
        let n = self.uielements.len();
        let mut r: Vec<String> = Vec::new();
        let mut i: usize = 0;
        while i < n
            invariant
                n == self.uielements.len(),
                n == self@.keys.len(),
                i <= n,
                r@.len() == i,
                forall|j: int| 0 <= j < i ==> #[trigger] r@[j]@ == self@.keys[j],
            decreases n - i,
        {
            assert(self@.keys[i as int] == self.uielements@[i as int].0@);
            r.push(self.uielements[i].0.clone());
            i = i + 1;
        }
        r
    }

    /// The child under `key`, if any.
    pub fn get(&self, key: &str) -> (r: Option<&Widget>)
        ensures
            match r {
                Some(w) => self@.lookup(key@) == Some(w@),
                None => self@.lookup(key@) == None::<WidgetView>,
            },
    {
        proof {
            use_type_invariant(self);
        }
        let n = self.uielements.len();
        let mut i: usize = 0;
        while i < n
            invariant
                n == self.uielements.len(),
                n == self@.keys.len(),
                self@.wf(),
                i <= n,
                forall|m: int| 0 <= m < i ==> self@.keys[m] != key@,
            decreases n - i,
        {
            assert(self@.keys[i as int] == self.uielements@[i as int].0@);
            let here = self.uielements[i].0.as_str();
            if !key_less(here, key) && !key_less(key, here) {
                proof {
                    if self@.keys[i as int] != key@ {
                        lemma_key_lt_total(self@.keys[i as int], key@);
                    }
                    lemma_index_of_key(self@, i as int);
                }
                return Some(&self.uielements[i].1);
            }
            proof {
                lemma_key_lt_irreflexive(key@);
            }
            i = i + 1;
        }
        None
    }

    /// The primitives of every child in key order, each child's text
    /// measured as the entry of `measured` at its index. Fails at the first
    /// child whose text has no measurement, drawing nothing.
    pub fn draw(&self, measured: &Vec<Option<Size>>) -> (r: Result<Vec<DrawCmd>, DrawError>)
        ensures
            match r {
                Ok(cmds) => (forall|i: int|
                    0 <= i < self@.children.len() ==> #[trigger] measured_at(measured@, i).is_some())
                    && prims(cmds@) == self@.draw(measured@),
                Err(DrawError::Unmeasured { index }) => index < self@.children.len()
                    && measured_at(measured@, index as int).is_none() && (forall|i: int|
                    0 <= i < index ==> #[trigger] measured_at(measured@, i).is_some()),
            },
    {
        let n = self.uielements.len();
        let mut cmds: Vec<DrawCmd> = Vec::new();
        let mut i: usize = 0;
        while i < n
            invariant
                n == self.uielements.len(),
                n == self@.children.len(),
                i <= n,
                forall|j: int| 0 <= j < i ==> #[trigger] measured_at(measured@, j).is_some(),
                prims(cmds@) == draw_children(self@.children.take(i as int), measured@),
            decreases n - i,
        {
            if i >= measured.len() {
                return Err(DrawError::Unmeasured { index: i });
            }
            let m = match measured[i] {
                Some(v) => v,
                None => {
                    return Err(DrawError::Unmeasured { index: i });
                },
            };
            assert(self@.children[i as int] == self.uielements@[i as int].1@);
            let mut part = self.uielements[i].1.draw(m);
            let ghost before = cmds@;
            let ghost part_view = part@;
            cmds.append(&mut part);
            proof {
                let next = self@.children.take(i + 1);
                assert(next.take(i as int) =~= self@.children.take(i as int));
                assert(prims(cmds@) =~= prims(before) + prims(part_view));
                assert(draw_children(next, measured@) == draw_children(next.take(i as int), measured@)
                    + next[i as int].draw(measured@[i as int]->Some_0));
            }
            i = i + 1;
        }
        assert(self@.children.take(n as int) =~= self@.children);
        Ok(cmds)
    }

    pub fn position(&self) -> (r: Point)
        ensures
            r == self@.pos,
    {
        self.pos
    }

    pub fn width(&self) -> (r: u32)
        ensures
            r == self@.width,
    {
        self.width
    }

    pub fn height(&self) -> (r: u32)
        ensures
            r == self@.height,
    {
        self.height
    }

    pub fn len(&self) -> (r: usize)
        ensures
            r == self@.keys.len(),
    {
        self.uielements.len()
    }
}

} // verus!
