use victrix::{Button, DrawCmd, Label, Point, Size, Talign, Widget, UI};

fn text_origin(cmds: &[DrawCmd]) -> (String, Point) {
    match cmds.last() {
        Some(DrawCmd::Text { text, origin, .. }) => (text.clone(), *origin),
        other => panic!("expected a text primitive, got {:?}", other),
    }
}

#[test]
fn left_label_draws_at_its_position() {
    let label = Label::new(10, 10, "42", 0xff, Talign::Left);
    let cmds = label.draw(Size::new(16, 12));
    assert_eq!(cmds.len(), 1);
    assert_eq!(text_origin(&cmds), ("42".to_string(), Point::new(10, 10)));
}

#[test]
fn new_text_centred_is_shifted_by_half_its_measure() {
    let mut label = Label::new(10, 10, "42", 0xff, Talign::Left);
    assert_eq!(text_origin(&label.draw(Size::new(16, 12))).1, Point::new(10, 10));
    label.set_text("123");
    label.set_alignment(Talign::Center);
    assert_eq!(label.text(), "123");
    let cmds = label.draw(Size::new(24, 14));
    assert_eq!(text_origin(&cmds), ("123".to_string(), Point::new(-2, 3)));
}

#[test]
fn centred_origin_rounds_half_down() {
    let label = Label::new(100, 50, "x", 0xff, Talign::Center);
    assert_eq!(label.aligned_origin(Size::new(25, 9)), Point::new(88, 46));
}

#[test]
fn centred_origin_stays_in_coordinate_range() {
    let label = Label::new(i64::MIN, i64::MAX, "x", 0xff, Talign::Center);
    assert_eq!(label.aligned_origin(Size::new(10, 10)), Point::new(i64::MIN, i64::MAX - 5));
}

#[test]
fn label_reports_no_size() {
    let label = Label::new(0, 0, "abc", 0xff, Talign::Left);
    assert_eq!(label.get_size(), None);
    assert_eq!(label.color(), 0xff);
}

#[test]
fn button_label_is_centred() {
    let button = Button::new(100, 200, "ok", 40, 40, 0x336699ff);
    let label = button.label();
    assert_eq!(label.position(), Point::new(120, 220));
    assert_eq!(label.alignment(), Talign::Center);
    assert_eq!(label.text(), "ok");
}

#[test]
fn button_label_centre_ignores_text_length() {
    let short = Button::new(3, 4, "a", 11, 7, 0);
    let long = Button::new(3, 4, "a much longer caption", 11, 7, 0);
    assert_eq!(short.label().position(), Point::new(8, 7));
    assert_eq!(long.label().position(), Point::new(8, 7));
}

#[test]
fn button_draws_fill_then_label() {
    let button = Button::new(100, 200, "ok", 40, 40, 0x336699ff);
    let cmds = button.draw(Size::new(10, 8));
    assert_eq!(cmds.len(), 2);
    assert_eq!(
        cmds[0],
        DrawCmd::FillRect { pos: Point::new(100, 200), size: Size::new(40, 40), color: 0x336699ff }
    );
    assert_eq!(
        cmds[1],
        DrawCmd::Text {
            text: "ok".to_string(),
            origin: Point::new(115, 216),
            color: 0xffffff,
            font_size: None,
        }
    );
    assert_eq!(button.get_size(), Some(Size::new(40, 40)));
}

#[test]
fn moved_button_takes_its_label_along() {
    let mut button = Button::new(0, 0, "go", 20, 10, 0);
    button.set_position(Point::new(50, 60));
    assert_eq!(button.position(), Point::new(50, 60));
    assert_eq!(button.label().position(), Point::new(60, 65));
}

#[test]
fn widget_forwards_to_its_kind() {
    let mut w = Widget::Button(Button::new(0, 0, "go", 20, 10, 0));
    assert_eq!(w.text(), "go");
    assert_eq!(w.get_size(), Some(Size::new(20, 10)));
    w.set_position(Point::new(1, 2));
    assert_eq!(w.position(), Point::new(1, 2));
    let l = Widget::Label(Label::new(5, 6, "hi", 0, Talign::Left));
    assert_eq!(l.get_size(), None);
    assert_eq!(l.draw(Size::new(4, 4)).len(), 1);
}
