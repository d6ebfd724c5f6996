//! Game objects and the scene that holds them in the order they were added.

use vstd::prelude::*;
use crate::draw::{prims, DrawCmd, Prim, RED, WHITE};
use crate::geometry::{Point, Size};

verus! {

/// What the host supplies each frame.
#[derive(Clone, Copy, Debug, PartialEq, Eq, Structural)]
pub struct FrameContext {
    /// Time since the previous frame, in milliseconds.
    pub elapsed_ms: u64,
    /// Frames per second, as the host measures it.
    pub fps: u32,
}

/// The character of the decimal digit `d`.
pub open spec fn digit_char(d: nat) -> char {
    if d == 0 {
        '0'
    } else if d == 1 {
        '1'
    } else if d == 2 {
        '2'
    } else if d == 3 {
        '3'
    } else if d == 4 {
        '4'
    } else if d == 5 {
        '5'
    } else if d == 6 {
        '6'
    } else if d == 7 {
        '7'
    } else if d == 8 {
        '8'
    } else {
        '9'
    }
}

/// `n` in base ten, without leading zeros.
pub open spec fn decimal(n: nat) -> Seq<char>
    decreases n,
{
    if n < 10 {
        seq![digit_char(n)]
    } else {
        decimal(n / 10).push(digit_char(n % 10))
    }
}

/// Relies on `ToString::to_string` for `u32`, through its `Display`: the
/// number in base ten, with no sign and no leading zeros.
#[verifier::external_body]
fn decimal_string(n: u32) -> (r: String)
    ensures
        r@ == decimal(n as nat),
{
    n.to_string()
}

/// A red square, for trying a scene out.
#[derive(Clone, Copy, Debug, PartialEq, Eq, Structural)]
pub struct Rect {
    pub pos: Point,
    pub size: Size,
}

impl Rect {
    pub fn new() -> (r: Rect)
        ensures
            r == (Rect { pos: Point { x: 400, y: 200 }, size: Size { w: 40, h: 40 } }),
    {
        Rect { pos: Point { x: 400, y: 200 }, size: Size { w: 40, h: 40 } }
    }
}

/// Shows the frame rate as text.
#[derive(Clone, Copy, Debug, PartialEq, Eq, Structural)]
pub struct FpsObject {
    pub fps: u32,
    pub x: i32,
    pub y: i32,
    pub fontsize: i32,
    pub color: u32,
}

impl FpsObject {
    pub fn new(x: i32, y: i32, fontsize: i32, color: u32) -> (r: FpsObject)
        ensures
            r == (FpsObject { fps: 0, x, y, fontsize, color }),
    {
        FpsObject { fps: 0, x, y, fontsize, color }
    }
}

/// The notice that a red square gives when it is destroyed.
pub open spec fn destroyed_notice() -> Seq<char> {
    "Destroyed"@
}

/// One of the objects that a scene can hold.
#[derive(Clone, Copy, Debug, PartialEq, Eq, Structural)]
pub enum GameObject {
    Rect(Rect),
    Fps(FpsObject),
}

impl GameObject {
    /// This object after a frame's update.
    pub open spec fn updated(self, frame: FrameContext) -> GameObject {
        match self {
            GameObject::Rect(r) => GameObject::Rect(r),
            GameObject::Fps(f) => GameObject::Fps(FpsObject { fps: frame.fps, ..f }),
        }
    }

    /// The primitives of this object.
    pub open spec fn draw_spec(self) -> Seq<Prim> {
        match self {
            GameObject::Rect(r) => seq![Prim::FillRect { pos: r.pos, size: r.size, color: RED }],
            GameObject::Fps(f) => seq![Prim::Text {
                text: decimal(f.fps as nat),
                origin: Point { x: f.x as i64, y: f.y as i64 },
                color: f.color,
                font_size: Some(f.fontsize),
            }],
        }
    }

    /// What this object reports when it is destroyed, if anything.
    pub open spec fn notice(self) -> Option<Seq<char>> {
        match self {
            GameObject::Rect(_) => Some(destroyed_notice()),
            GameObject::Fps(_) => None,
        }
    }

    pub fn update(&mut self, frame: &FrameContext)
        ensures
            *final(self) == old(self).updated(*frame),
    {
        match self {
            GameObject::Rect(_) => {},
            GameObject::Fps(f) => {
                f.fps = frame.fps;
            },
        }
    }

    pub fn draw(&self) -> (r: Vec<DrawCmd>)
        ensures
            prims(r@) == self.draw_spec(),
    {
        let r = match self {
            GameObject::Rect(rect) => vec![
                DrawCmd::FillRect { pos: rect.pos, size: rect.size, color: RED },
            ],
            GameObject::Fps(f) => vec![
                DrawCmd::Text {
                    text: decimal_string(f.fps),
                    origin: Point { x: f.x as i64, y: f.y as i64 },
                    color: f.color,
                    font_size: Some(f.fontsize),
                },
            ],
        };
        assert(prims(r@) =~= self.draw_spec());
        r
    }

    pub fn destroy(&self) -> (r: Option<String>)
        ensures
            match r {
                Some(s) => self.notice() == Some(s@),
                None => self.notice() == None::<Seq<char>>,
            },
    {
        match self {
            GameObject::Rect(_) => Some("Destroyed".to_owned()),
            GameObject::Fps(_) => None,
        }
    }
}

/// The primitives of `objs` in order.
pub open spec fn draw_objects(objs: Seq<GameObject>) -> Seq<Prim>
    decreases objs.len(),
{
    if objs.len() == 0 {
        seq![]
    } else {
        let n = objs.len() - 1;
        draw_objects(objs.take(n)) + objs[n].draw_spec()
    }
}

/// A frame of `objs`: the background cleared to white, then each object in
/// order.
pub open spec fn scene_prims(objs: Seq<GameObject>) -> Seq<Prim> {
    seq![Prim::Clear { color: WHITE }] + draw_objects(objs)
}

/// Every object of `objs` after a frame's update, in the same order.
pub open spec fn update_objects(objs: Seq<GameObject>, frame: FrameContext) -> Seq<GameObject> {
    objs.map_values(|o: GameObject| o.updated(frame))
}

/// The notices of `objs` in order, skipping objects that give none.
pub open spec fn notices(objs: Seq<GameObject>) -> Seq<Seq<char>>
    decreases objs.len(),
{
    if objs.len() == 0 {
        seq![]
    } else {
        let n = objs.len() - 1;
        match objs[n].notice() {
            Some(s) => notices(objs.take(n)).push(s),
            None => notices(objs.take(n)),
        }
    }
}

/// Game objects, updated and drawn in the order they were added.
pub struct Scene {
    objs: Vec<GameObject>,
}

impl View for Scene {
    type V = Seq<GameObject>;

    closed spec fn view(&self) -> Seq<GameObject> {
        self.objs@
    }
}

impl Scene {
    pub fn new() -> (r: Scene)
        ensures
            r@ == Seq::<GameObject>::empty(),
    {
        Scene { objs: Vec::new() }
    }

    /// Adds `obj` after every object already there.
    pub fn add_object(&mut self, obj: GameObject)
        ensures
            final(self)@ == old(self)@.push(obj),
    {
        self.objs.push(obj);
    }

    pub fn len(&self) -> (r: usize)
        ensures
            r == self@.len(),
    {
        self.objs.len()
    }

    pub fn get(&self, i: usize) -> (r: GameObject)
        requires
            i < self@.len(),
        ensures
            r == self@[i as int],
    {
        self.objs[i]
    }

    /// Updates every object once, in order.
    pub fn update_all(&mut self, frame: &FrameContext)
        ensures
            final(self)@ == update_objects(old(self)@, *frame),
    {
        let n = self.objs.len();
        let mut i: usize = 0;
        while i < n
            invariant
                n == self.objs@.len(),
                n == old(self)@.len(),
                i <= n,
                forall|j: int| 0 <= j < i ==> #[trigger] self.objs@[j] == old(self)@[j].updated(*frame),
                forall|j: int| i <= j < n ==> #[trigger] self.objs@[j] == old(self)@[j],
            decreases n - i,
        {
            self.objs[i].update(frame);
            i = i + 1;
        }
        assert(self@ =~= update_objects(old(self)@, *frame));
    }

    /// The frame's primitives: clear to white, then every object in order.
    pub fn draw_all(&self) -> (r: Vec<DrawCmd>)
        ensures
            prims(r@) == scene_prims(self@),
    {
        let mut cmds: Vec<DrawCmd> = vec![DrawCmd::Clear { color: WHITE }];
        let n = self.objs.len();
        let mut i: usize = 0;
        assert(self@.take(0) =~= Seq::<GameObject>::empty());
        assert(prims(cmds@) =~= scene_prims(self@.take(0)));
        while i < n
            invariant
                n == self@.len(),
                i <= n,
                prims(cmds@) == scene_prims(self@.take(i as int)),
            decreases n - i,
        {
            let mut part = self.objs[i].draw();
            let ghost before = cmds@;
            let ghost part_view = part@;
            cmds.append(&mut part);
            proof {
                let next = self@.take(i + 1);
                assert(next.take(i as int) =~= self@.take(i as int));
                assert(prims(cmds@) =~= prims(before) + prims(part_view));
                assert(draw_objects(next) == draw_objects(next.take(i as int)) + next[i as int].draw_spec());
                assert(prims(cmds@) =~= scene_prims(next));
            }
            i = i + 1;
        }
        assert(self@.take(n as int) =~= self@);
        cmds
    }

    /// One frame: every object is updated, and only then is the frame drawn.
    pub fn run_frame(&mut self, frame: &FrameContext) -> (r: Vec<DrawCmd>)
        ensures
            final(self)@ == update_objects(old(self)@, *frame),
            prims(r@) == scene_prims(update_objects(old(self)@, *frame)),
    {
        self.update_all(frame);
        self.draw_all()
    }

    /// Destroys every object, in order, leaving the scene empty. Returns the
    /// notices that the objects gave, in that order.
    pub fn destroy_all(&mut self) -> (r: Vec<String>)
        ensures
            final(self)@.len() == 0,
            r@.map_values(|s: String| s@) == notices(old(self)@),
    {
        let mut out: Vec<String> = Vec::new();
        let n = self.objs.len();
        let mut i: usize = 0;
        assert(old(self)@.take(0) =~= Seq::<GameObject>::empty());
        while i < n
            invariant
                n == self.objs@.len(),
                self@ == old(self)@,
                i <= n,
                out@.map_values(|s: String| s@) == notices(old(self)@.take(i as int)),
            decreases n - i,
        {
            let notice = self.objs[i].destroy();
            let ghost before = out@;
            proof {
                let next = old(self)@.take(i + 1);
                assert(next.take(i as int) =~= old(self)@.take(i as int));
            }
            match notice {
                Some(s) => {
                    out.push(s);
                    assert(out@.map_values(|s: String| s@) =~= before.map_values(|s: String| s@).push(
                        s@,
                    ));
                },
                None => {},
            }
            i = i + 1;
        }
        assert(old(self)@.take(n as int) =~= old(self)@);
        self.objs.clear();
        out
    }
}

} // verus!
