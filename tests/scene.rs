use victrix::{DrawCmd, FpsObject, FrameContext, GameObject, Keyboard, Point, Rect, Scene, Size};
use victrix::{BLACK, RED, WHITE};

fn fps_text(s: &str, x: i64, y: i64) -> DrawCmd {
    DrawCmd::Text { text: s.to_string(), origin: Point::new(x, y), color: BLACK, font_size: Some(20) }
}

#[test]
fn frame_updates_every_object_then_draws_in_order() {
    let mut scene = Scene::new();
    scene.add_object(GameObject::Fps(FpsObject::new(12, 12, 20, BLACK)));
    scene.add_object(GameObject::Rect(Rect::new()));
    scene.add_object(GameObject::Fps(FpsObject::new(30, 40, 20, BLACK)));
    let cmds = scene.run_frame(&FrameContext { elapsed_ms: 16, fps: 60 });
    assert_eq!(
        cmds,
        vec![
            DrawCmd::Clear { color: WHITE },
            fps_text("60", 12, 12),
            DrawCmd::FillRect { pos: Point::new(400, 200), size: Size::new(40, 40), color: RED },
            fps_text("60", 30, 40),
        ]
    );
    match scene.get(2) {
        GameObject::Fps(f) => assert_eq!(f.fps, 60),
        _ => panic!("fps object expected"),
    }
}

#[test]
fn draw_before_any_update_shows_zero() {
    let mut scene = Scene::new();
    scene.add_object(GameObject::Fps(FpsObject::new(12, 12, 20, BLACK)));
    assert_eq!(scene.draw_all(), vec![DrawCmd::Clear { color: WHITE }, fps_text("0", 12, 12)]);
}

#[test]
fn update_then_draw_writes_the_rate_in_decimal() {
    let mut scene = Scene::new();
    scene.add_object(GameObject::Fps(FpsObject::new(1, 2, 20, BLACK)));
    scene.update_all(&FrameContext { elapsed_ms: 1, fps: 1234 });
    assert_eq!(scene.draw_all()[1], fps_text("1234", 1, 2));
    scene.update_all(&FrameContext { elapsed_ms: 1, fps: u32::MAX });
    assert_eq!(scene.draw_all()[1], fps_text("4294967295", 1, 2));
}

#[test]
fn empty_scene_only_clears() {
    let scene = Scene::new();
    assert_eq!(scene.len(), 0);
    assert_eq!(scene.draw_all(), vec![DrawCmd::Clear { color: WHITE }]);
}

#[test]
fn rect_is_unchanged_by_update() {
    let mut o = GameObject::Rect(Rect::new());
    o.update(&FrameContext { elapsed_ms: 5, fps: 30 });
    assert_eq!(o, GameObject::Rect(Rect::new()));
}

#[test]
fn destroy_all_empties_the_scene_in_order() {
    let mut scene = Scene::new();
    scene.add_object(GameObject::Rect(Rect::new()));
    scene.add_object(GameObject::Fps(FpsObject::new(0, 0, 10, BLACK)));
    scene.add_object(GameObject::Rect(Rect::new()));
    let notices = scene.destroy_all();
    assert_eq!(notices, vec!["Destroyed".to_string(), "Destroyed".to_string()]);
    assert_eq!(scene.len(), 0);
    assert_eq!(scene.draw_all(), vec![DrawCmd::Clear { color: WHITE }]);
}

#[test]
fn keyboard_tracks_nothing() {
    assert_eq!(Keyboard::new(), Keyboard {});
}
