use victrix::{Button, DrawCmd, DrawError, Label, Point, Size, Talign, Widget, Window};

fn label(text: &str) -> Widget {
    Widget::Label(Label::new(0, 0, text, 0xff, Talign::Left))
}

fn texts_in_draw_order(cmds: &[DrawCmd]) -> Vec<String> {
    cmds.iter()
        .filter_map(|c| match c {
            DrawCmd::Text { text, .. } => Some(text.clone()),
            _ => None,
        })
        .collect()
}

#[test]
fn new_window_has_default_size_and_no_children() {
    let w = Window::new(3, 4);
    assert_eq!(w.position(), Point::new(3, 4));
    assert_eq!(w.width(), 200);
    assert_eq!(w.height(), 10);
    assert_eq!(w.len(), 0);
    assert_eq!(w.draw(&vec![]), Ok(vec![]));
}

#[test]
fn key_order_does_not_depend_on_insertion_order() {
    let mut a = Window::new(0, 0);
    a.insert_elm("1_button", Widget::Button(Button::new(0, 0, "b", 10, 10, 0)));
    a.insert_elm("2_label", label("l"));
    a.insert_elm("0_fps", label("f"));
    let mut b = Window::new(0, 0);
    b.insert_elm("0_fps", label("f"));
    b.insert_elm("2_label", label("l"));
    b.insert_elm("1_button", Widget::Button(Button::new(0, 0, "b", 10, 10, 0)));
    let expected = vec!["0_fps".to_string(), "1_button".to_string(), "2_label".to_string()];
    assert_eq!(a.keys(), expected);
    assert_eq!(b.keys(), expected);
    assert_eq!(a.texts(), vec!["f".to_string(), "b".to_string(), "l".to_string()]);
    let m = vec![Some(Size::new(4, 4)); 3];
    let da = a.draw(&m).unwrap();
    let db = b.draw(&m).unwrap();
    assert_eq!(da, db);
    assert_eq!(texts_in_draw_order(&da), vec!["f".to_string(), "b".to_string(), "l".to_string()]);
}

#[test]
fn inserting_under_a_used_key_replaces_and_returns_the_prior_child() {
    let mut w = Window::new(0, 0);
    assert!(w.insert_elm("0_fps", label("59")).is_none());
    let prior = w.insert_elm("0_fps", label("60"));
    match prior {
        Some(Widget::Label(l)) => assert_eq!(l.text(), "59"),
        _ => panic!("the prior child should come back"),
    }
    assert_eq!(w.len(), 1);
    assert_eq!(w.get("0_fps").map(|c| c.text().to_string()), Some("60".to_string()));
    let cmds = w.draw(&vec![Some(Size::new(4, 4))]).unwrap();
    assert_eq!(texts_in_draw_order(&cmds), vec!["60".to_string()]);
}

#[test]
fn layout_places_children_by_index_and_height() {
    let mut w = Window::new(5, 7);
    w.insert_elm("b", Widget::Button(Button::new(0, 0, "ok", 30, 40, 0)));
    w.insert_elm("a", label("first"));
    w.insert_elm("c", label("third"));
    // "a": no size, so height 20: y = 7 + 10 * 0 + 10.
    assert_eq!(w.get("a").unwrap().position(), Point::new(15, 17));
    // "b": height 40: y = 7 + 20 * 1 + 10.
    assert_eq!(w.get("b").unwrap().position(), Point::new(15, 37));
    // "c": no size: y = 7 + 10 * 2 + 10.
    assert_eq!(w.get("c").unwrap().position(), Point::new(15, 37));
    match w.get("b") {
        Some(Widget::Button(b)) => assert_eq!(b.label().position(), Point::new(30, 57)),
        _ => panic!("button expected under b"),
    }
}

#[test]
fn layout_runs_again_after_each_insert() {
    let mut w = Window::new(0, 0);
    w.insert_elm("b", label("x"));
    assert_eq!(w.get("b").unwrap().position(), Point::new(10, 10));
    w.insert_elm("a", label("y"));
    assert_eq!(w.get("a").unwrap().position(), Point::new(10, 10));
    assert_eq!(w.get("b").unwrap().position(), Point::new(10, 20));
    w.layout_window();
    assert_eq!(w.get("b").unwrap().position(), Point::new(10, 20));
}

#[test]
fn missing_key_is_not_found() {
    let mut w = Window::new(0, 0);
    w.insert_elm("a", label("y"));
    assert!(w.get("b").is_none());
    assert!(w.get("").is_none());
}

#[test]
fn draw_stops_at_the_first_unmeasured_child() {
    let mut w = Window::new(0, 0);
    w.insert_elm("a", label("x"));
    w.insert_elm("b", label("y"));
    w.insert_elm("c", label("z"));
    assert_eq!(
        w.draw(&vec![Some(Size::new(1, 1)), None, None]),
        Err(DrawError::Unmeasured { index: 1 })
    );
    assert_eq!(
        w.draw(&vec![Some(Size::new(1, 1)), Some(Size::new(1, 1))]),
        Err(DrawError::Unmeasured { index: 2 })
    );
}

#[test]
fn draw_uses_each_childs_measure() {
    let mut w = Window::new(0, 0);
    w.insert_elm("a", Widget::Label(Label::new(0, 0, "x", 0xff, Talign::Center)));
    let cmds = w.draw(&vec![Some(Size::new(8, 6))]).unwrap();
    assert_eq!(
        cmds,
        vec![DrawCmd::Text {
            text: "x".to_string(),
            origin: Point::new(6, 7),
            color: 0xff,
            font_size: None,
        }]
    );
}
