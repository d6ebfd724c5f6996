//! Widgets: text labels, buttons with a centred label, and the closed set of
//! widgets that a window holds.

use vstd::prelude::*;
use crate::draw::{prims, DrawCmd, Prim};
use crate::geometry::{half, point_at, Point, Size};

verus! {

/// Colour of the label that a button draws over its fill.
pub const BUTTON_LABEL_COLOR: u32 = 0xffffff;

/// How a label's position relates to the text drawn there.
#[derive(Clone, Copy, Debug, PartialEq, Eq, Structural)]
pub enum Talign {
    /// The position is the text's top-left corner.
    Left,
    /// The position is the text's centre.
    Center,
}

/// The corner at which text of measured size `m` is drawn, for a label at
/// `pos` with alignment `align`.
pub open spec fn aligned_origin(pos: Point, align: Talign, m: Size) -> Point {
    match align {
        Talign::Left => pos,
        Talign::Center => point_at(pos.x - half(m.w), pos.y - half(m.h)),
    }
}

/// What a label holds.
pub struct LabelView {
    pub text: Seq<char>,
    pub color: u32,
    pub pos: Point,
    pub alignment: Talign,
}

impl LabelView {
    /// The primitives of this label, its text measured as `m`.
    pub open spec fn draw(self, m: Size) -> Seq<Prim> {
        seq![Prim::Text {
            text: self.text,
            origin: aligned_origin(self.pos, self.alignment, m),
            color: self.color,
            font_size: None,
        }]
    }

    pub open spec fn placed_at(self, p: Point) -> LabelView {
        LabelView { text: self.text, color: self.color, pos: p, alignment: self.alignment }
    }
}

/// What a button holds. Its label is derived from it.
pub struct ButtonView {
    pub pos: Point,
    pub size: Size,
    pub color: u32,
    pub text: Seq<char>,
    pub clicked: bool,
}

impl ButtonView {
    /// The centre of the button.
    pub open spec fn center(self) -> Point {
        point_at(self.pos.x + half(self.size.w), self.pos.y + half(self.size.h))
    }

    /// The label that the button owns: its text, centred on the button.
    pub open spec fn label(self) -> LabelView {
        LabelView {
            text: self.text,
            color: BUTTON_LABEL_COLOR,
            pos: self.center(),
            alignment: Talign::Center,
        }
    }

    /// The fill first, then the label over it.
    pub open spec fn draw(self, m: Size) -> Seq<Prim> {
        seq![Prim::FillRect { pos: self.pos, size: self.size, color: self.color }] + self.label().draw(
            m,
        )
    }

    pub open spec fn placed_at(self, p: Point) -> ButtonView {
        ButtonView {
            pos: p,
            size: self.size,
            color: self.color,
            text: self.text,
            clicked: self.clicked,
        }
    }
}

/// Something that a window can hold and draw.
pub trait UI: Sized {
    /// The primitives drawn, the text measured as `measured`.
    spec fn draw_spec(&self, measured: Size) -> Seq<Prim>;

    /// The size reported to layout, if any.
    spec fn size_spec(&self) -> Option<Size>;

    /// The primitives to draw, given the measured size of the text.
    fn draw(&self, measured: Size) -> (r: Vec<DrawCmd>)
        ensures
            prims(r@) == self.draw_spec(measured),
    ;

    /// The intrinsic size, or `None` where there is none.
    fn get_size(&self) -> (r: Option<Size>)
        ensures
            r == self.size_spec(),
    ;
}

/// A line of text at a position.
pub struct Label {
    label: String,
    color: u32,
    pos: Point,
    alignment: Talign,
}

impl View for Label {
    type V = LabelView;

    closed spec fn view(&self) -> LabelView {
        LabelView { text: self.label@, color: self.color, pos: self.pos, alignment: self.alignment }
    }
}

impl Label {
    pub fn new(x: i64, y: i64, label: &str, color: u32, align: Talign) -> (r: Label)
        ensures
            r@ == (LabelView { text: label@, color, pos: Point { x, y }, alignment: align }),
    {
        Label { label: label.to_owned(), color, pos: Point { x, y }, alignment: align }
    }

    /// Replaces the text; the next draw measures the new one.
    pub fn set_text(&mut self, label: &str)
        ensures
            final(self)@ == (LabelView { text: label@, ..old(self)@ }),
    {
        self.label = label.to_owned();
    }

    pub fn set_alignment(&mut self, align: Talign)
        ensures
            final(self)@ == (LabelView { alignment: align, ..old(self)@ }),
    {
        self.alignment = align;
    }

    pub fn set_position(&mut self, p: Point)
        ensures
            final(self)@ == old(self)@.placed_at(p),
    {
        self.pos = p;
    }

    pub fn text(&self) -> (r: &str)
        ensures
            r@ == self@.text,
    {
        self.label.as_str()
    }

    pub fn position(&self) -> (r: Point)
        ensures
            r == self@.pos,
    {
        self.pos
    }

    pub fn alignment(&self) -> (r: Talign)
        ensures
            r == self@.alignment,
    {
        self.alignment
    }

    pub fn color(&self) -> (r: u32)
        ensures
            r == self@.color,
    {
        self.color
    }

    /// Where the text goes, once measured as `measured`.
    pub fn aligned_origin(&self, measured: Size) -> (r: Point)
        ensures
            r == aligned_origin(self@.pos, self@.alignment, measured),
    {
        match self.alignment {
            Talign::Left => self.pos,
            Talign::Center => self.pos.minus_half(measured),
        }
    }

    /// The text primitive of this label.
    pub fn text_cmd(&self, measured: Size) -> (r: DrawCmd)
        ensures
            seq![r@] == self@.draw(measured),
    {
        DrawCmd::Text {
            text: self.label.clone(),
            origin: self.aligned_origin(measured),
            color: self.color,
            font_size: None,
        }
    }
}

impl UI for Label {
    open spec fn draw_spec(&self, measured: Size) -> Seq<Prim> {
        self@.draw(measured)
    }

    open spec fn size_spec(&self) -> Option<Size> {
        None
    }

    fn draw(&self, measured: Size) -> (r: Vec<DrawCmd>) {
        let r = vec![self.text_cmd(measured)];
        assert(prims(r@) =~= self@.draw(measured));
        r
    }

    fn get_size(&self) -> (r: Option<Size>) {
        None
    }
}

/// A filled rectangle with a label centred on it.
pub struct Button {
    pos: Point,
    text: String,
    shape: Size,
    color: u32,
    clicked: bool,
}

impl View for Button {
    type V = ButtonView;

    closed spec fn view(&self) -> ButtonView {
        ButtonView {
            pos: self.pos,
            size: self.shape,
            color: self.color,
            text: self.text@,
            clicked: self.clicked,
        }
    }
}

impl Button {
    /// A button with top-left corner `(x, y)` and size `(sizew, sizeh)`.
    pub fn new(x: i64, y: i64, label: &str, sizew: u32, sizeh: u32, color: u32) -> (r: Button)
        ensures
            r@ == (ButtonView {
                pos: Point { x, y },
                size: Size { w: sizew, h: sizeh },
                color,
                text: label@,
                clicked: false,
            }),
    {
        Button {
            pos: Point { x, y },
            text: label.to_owned(),
            shape: Size { w: sizew, h: sizeh },
            color,
            clicked: false,
        }
    }

    /// The label, centred on the button where it stands now.
    pub fn label(&self) -> (r: Label)
        ensures
            r@ == self@.label(),
    {
        Label {
            label: self.text.clone(),
            color: BUTTON_LABEL_COLOR,
            pos: self.pos.plus_half(self.shape),
            alignment: Talign::Center,
        }
    }

    /// Moves the button; its label moves with it.
    pub fn set_position(&mut self, p: Point)
        ensures
            final(self)@ == old(self)@.placed_at(p),
    {
        self.pos = p;
    }

    pub fn position(&self) -> (r: Point)
        ensures
            r == self@.pos,
    {
        self.pos
    }

    pub fn text(&self) -> (r: &str)
        ensures
            r@ == self@.text,
    {
        self.text.as_str()
    }

    pub fn color(&self) -> (r: u32)
        ensures
            r == self@.color,
    {
        self.color
    }

    pub fn is_clicked(&self) -> (r: bool)
        ensures
            r == self@.clicked,
    {
        self.clicked
    }
}

impl UI for Button {
    open spec fn draw_spec(&self, measured: Size) -> Seq<Prim> {
        self@.draw(measured)
    }

    open spec fn size_spec(&self) -> Option<Size> {
        Some(self@.size)
    }

    fn draw(&self, measured: Size) -> (r: Vec<DrawCmd>) {
        let fill = DrawCmd::FillRect { pos: self.pos, size: self.shape, color: self.color };
        let text = self.label().text_cmd(measured);
        let r = vec![fill, text];
        assert(prims(r@) =~= self@.draw(measured));
        r
    }

    fn get_size(&self) -> (r: Option<Size>) {
        Some(self.shape)
    }
}

/// What a widget holds.
pub enum WidgetView {
    Label(LabelView),
    Button(ButtonView),
}

impl WidgetView {
    pub open spec fn draw(self, m: Size) -> Seq<Prim> {
        match self {
            WidgetView::Label(l) => l.draw(m),
            WidgetView::Button(b) => b.draw(m),
        }
    }

    pub open spec fn size(self) -> Option<Size> {
        match self {
            WidgetView::Label(_) => None,
            WidgetView::Button(b) => Some(b.size),
        }
    }

    pub open spec fn text(self) -> Seq<char> {
        match self {
            WidgetView::Label(l) => l.text,
            WidgetView::Button(b) => b.text,
        }
    }

    pub open spec fn position(self) -> Point {
        match self {
            WidgetView::Label(l) => l.pos,
            WidgetView::Button(b) => b.pos,
        }
    }

    pub open spec fn placed_at(self, p: Point) -> WidgetView {
        match self {
            WidgetView::Label(l) => WidgetView::Label(l.placed_at(p)),
            WidgetView::Button(b) => WidgetView::Button(b.placed_at(p)),
        }
    }
}

/// One of the widgets that a window can hold.
pub enum Widget {
    Label(Label),
    Button(Button),
}

impl View for Widget {
    type V = WidgetView;

    open spec fn view(&self) -> WidgetView {
        match self {
            Widget::Label(l) => WidgetView::Label(l@),
            Widget::Button(b) => WidgetView::Button(b@),
        }
    }
}

impl Widget {
    /// The text to measure before drawing.
    pub fn text(&self) -> (r: &str)
        ensures
            r@ == self@.text(),
    {
        match self {
            Widget::Label(l) => l.text(),
            Widget::Button(b) => b.text(),
        }
    }

    pub fn position(&self) -> (r: Point)
        ensures
            r == self@.position(),
    {
        match self {
            Widget::Label(l) => l.position(),
            Widget::Button(b) => b.position(),
        }
    }

    pub fn set_position(&mut self, p: Point)
        ensures
            final(self)@ == old(self)@.placed_at(p),
    {
        match self {
            Widget::Label(l) => l.set_position(p),
            Widget::Button(b) => b.set_position(p),
        }
    }
}

impl UI for Widget {
    open spec fn draw_spec(&self, measured: Size) -> Seq<Prim> {
        self@.draw(measured)
    }

    open spec fn size_spec(&self) -> Option<Size> {
        self@.size()
    }

    fn draw(&self, measured: Size) -> (r: Vec<DrawCmd>) {
        match self {
            Widget::Label(l) => l.draw(measured),
            Widget::Button(b) => b.draw(measured),
        }
    }

    fn get_size(&self) -> (r: Option<Size>) {
        match self {
            Widget::Label(l) => l.get_size(),
            Widget::Button(b) => b.get_size(),
        }
    }
}

/// A centred label draws its text with the corner half the measured width
/// left of, and half the measured height above, its position; the text
/// drawn, and so the text measured, is the label's current text.
pub proof fn lemma_center_origin(l: LabelView, m: Size)
    requires
        l.alignment == Talign::Center,
        l.pos.x - half(m.w) >= i64::MIN,
        l.pos.y - half(m.h) >= i64::MIN,
    ensures
        l.draw(m) == seq![
            Prim::Text {
                text: l.text,
                origin: Point { x: (l.pos.x - half(m.w)) as i64, y: (l.pos.y - half(m.h)) as i64 },
                color: l.color,
                font_size: None,
            },
        ],
{
}

/// A button's label is centred on the button, at its position plus half its
/// size, whatever its text.
pub proof fn lemma_button_label_center(b: ButtonView)
    requires
        b.pos.x + half(b.size.w) <= i64::MAX,
        b.pos.y + half(b.size.h) <= i64::MAX,
    ensures
        b.label().pos == (Point {
            x: (b.pos.x + half(b.size.w)) as i64,
            y: (b.pos.y + half(b.size.h)) as i64,
        }),
        b.label().alignment == Talign::Center,
        b.label().text == b.text,
{
}

} // verus!
