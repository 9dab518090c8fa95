use rustcraft::input::{GameChanges, GameChangesContext, InputEvent, KeyMapping, MouseButton, WindowAction};

fn mapping() -> KeyMapping {
    KeyMapping { pause: 1, forwards: 2, backwards: 3, left: 4, right: 5, jump: 6, sneak: 7 }
}

#[test]
fn new_changes_are_empty() {
    let c = GameChanges::new();
    assert_eq!(c.movement, [0, 0]);
    assert!(!c.use_item && !c.activate_item && !c.pause && !c.jump && !c.sneak);
}

#[test]
fn click_uses_item_and_grabs_cursor() {
    let mut c = GameChanges::new();
    let mut ctx = GameChangesContext::new(mapping());
    let a = c.handle_event(&InputEvent::MouseInput { button: MouseButton::Left }, &mut ctx);
    assert!(a == WindowAction::CaptureMouse);
    assert!(c.use_item && !c.activate_item);
    assert!(ctx.grabbed);
    let a = c.handle_event(&InputEvent::MouseInput { button: MouseButton::Right }, &mut ctx);
    assert!(a == WindowAction::Nothing);
    assert!(c.activate_item);
}

#[test]
fn keys_are_ignored_while_cursor_is_free() {
    let mut c = GameChanges::new();
    let mut ctx = GameChangesContext::new(mapping());
    let a = c.handle_event(&InputEvent::KeyboardInput { key: Some(2) }, &mut ctx);
    assert!(a == WindowAction::Nothing);
    assert_eq!(c.movement, [0, 0]);
}

#[test]
fn movement_keys_add_up() {
    let mut c = GameChanges::new();
    let mut ctx = GameChangesContext::new(mapping());
    ctx.grabbed = true;
    for key in [2, 2, 3, 4, 5, 5] {
        c.handle_event(&InputEvent::KeyboardInput { key: Some(key) }, &mut ctx);
    }
    assert_eq!(c.movement, [1, -1]);
    c.handle_event(&InputEvent::KeyboardInput { key: Some(6) }, &mut ctx);
    c.handle_event(&InputEvent::KeyboardInput { key: Some(7) }, &mut ctx);
    c.handle_event(&InputEvent::KeyboardInput { key: None }, &mut ctx);
    assert!(c.jump && c.sneak);
}

#[test]
fn pause_frees_cursor() {
    let mut c = GameChanges::new();
    let mut ctx = GameChangesContext::new(mapping());
    ctx.grabbed = true;
    let a = c.handle_event(&InputEvent::KeyboardInput { key: Some(1) }, &mut ctx);
    assert!(a == WindowAction::ReleaseMouse);
    assert!(c.pause && !ctx.grabbed);
}

#[test]
fn cursor_moves_recenter_only_when_grabbed() {
    let mut c = GameChanges::new();
    let mut ctx = GameChangesContext::new(mapping());
    assert!(c.handle_event(&InputEvent::CursorMoved, &mut ctx) == WindowAction::Nothing);
    ctx.grabbed = true;
    assert!(c.handle_event(&InputEvent::CursorMoved, &mut ctx) == WindowAction::RecenterCursor);
    assert!(c.handle_event(&InputEvent::Other, &mut ctx) == WindowAction::Nothing);
}

#[test]
fn clear_forgets_inputs() {
    let mut c = GameChanges::new();
    let mut ctx = GameChangesContext::new(mapping());
    c.handle_event(&InputEvent::MouseInput { button: MouseButton::Left }, &mut ctx);
    c.handle_event(&InputEvent::KeyboardInput { key: Some(2) }, &mut ctx);
    c.clear();
    assert_eq!(c.movement, [0, 0]);
    assert!(!c.use_item);
}

#[test]
fn mouse_home_is_window_centre() {
    let mut ctx = GameChangesContext::new(mapping());
    ctx.update_mouse_home(1280, 721);
    assert_eq!(ctx.mouse_home, [640, 360]);
}

fn press_all(keys: &[u32]) -> ([i32; 2], bool, bool) {
    let mut c = GameChanges::new();
    let mut ctx = GameChangesContext::new(mapping());
    ctx.grabbed = true;
    for key in keys {
        c.handle_event(&InputEvent::KeyboardInput { key: Some(*key) }, &mut ctx);
    }
    (c.movement, c.jump, ctx.grabbed)
}

#[test]
fn key_presses_commute_except_pause() {
    assert_eq!(press_all(&[2, 4, 6]), press_all(&[6, 4, 2]));
    assert_eq!(press_all(&[3, 3, 5]), press_all(&[5, 3, 3]));
    // The pause key frees the cursor, so the keys after it are ignored.
    assert_ne!(press_all(&[1, 2]), press_all(&[2, 1]));
}

#[test]
fn clicks_and_other_keys_leave_full_axes_alone() {
    let mut ctx = GameChangesContext::new(mapping());
    let mut c = GameChanges::new();
    c.movement = [i32::MAX, i32::MIN];
    c.handle_event(&InputEvent::MouseInput { button: MouseButton::Left }, &mut ctx);
    assert!(ctx.grabbed);
    c.handle_event(&InputEvent::KeyboardInput { key: Some(6) }, &mut ctx);
    c.handle_event(&InputEvent::KeyboardInput { key: Some(3) }, &mut ctx);
    c.handle_event(&InputEvent::KeyboardInput { key: Some(4) }, &mut ctx);
    assert_eq!(c.movement, [i32::MAX - 1, i32::MIN + 1]);
    assert!(c.jump && c.use_item);
}
