//! Input handling: turning window events into the changes the game applies at
//! the next frame. Naming them movement or jump rather than after keys makes it
//! easier to support several input devices.

use vstd::prelude::*;

verus! {

/// The keys bound to each action, as key codes.
pub struct KeyMapping {
    pub pause: u32,
    pub forwards: u32,
    pub backwards: u32,
    pub left: u32,
    pub right: u32,
    pub jump: u32,
    pub sneak: u32,
}

/// A mouse button.
#[derive(PartialEq, Eq, Structural, Clone, Copy)]
pub enum MouseButton {
    Left,
    Right,
    Middle,
    Other(u16),
}

/// The window events that input handling looks at. Cursor positions are kept by
/// the caller, which applies the look change when `RecenterCursor` comes back.
pub enum InputEvent {
    MouseInput { button: MouseButton },
    /// A key press; `None` where the key has no known code.
    KeyboardInput { key: Option<u32> },
    CursorMoved,
    Other,
}

/// What the window has to do after an event.
#[derive(PartialEq, Eq, Structural, Clone, Copy)]
pub enum WindowAction {
    Nothing,
    /// Grab and hide the cursor.
    CaptureMouse,
    /// Release and show the cursor.
    ReleaseMouse,
    /// Apply the cursor's offset from the mouse home to the look direction and
    /// move the cursor back to the mouse home.
    RecenterCursor,
}

/// The user's inputs since the last frame.
#[verifier::ext_equal]
pub struct GameChanges {
    pub movement: [i32; 2],
    pub use_item: bool,
    pub activate_item: bool,
    pub pause: bool,
    pub jump: bool,
    pub sneak: bool,
}

/// What input handling keeps between frames.
pub struct GameChangesContext {
    pub mappings: KeyMapping,
    pub mouse_home: [u32; 2],
    pub grabbed: bool,
}

impl GameChangesContext {
    /// A context with the given key bindings, the mouse home at the origin and the
    /// cursor not grabbed.
    pub fn new(mappings: KeyMapping) -> (ctx: GameChangesContext)
        ensures
            ctx.mappings == mappings,
            ctx.mouse_home == [0u32, 0u32],
            !ctx.grabbed,
    {
        GameChangesContext { mappings, mouse_home: [0, 0], grabbed: false }
    }

    /// Puts the mouse home at the centre of a window of the given size.
    pub fn update_mouse_home(&mut self, width: u32, height: u32)
        ensures
            final(self).mouse_home == [width / 2, height / 2],
            final(self).mappings == old(self).mappings,
            final(self).grabbed == old(self).grabbed,
    {
        self.mouse_home = [width / 2, height / 2];
    }
}

/// The change of one movement axis for a key: one up when the key is bound to
/// the positive direction, one down when it is bound to the negative one (both,
/// and so no change, when it is bound to both).
pub open spec fn axis_change(key: u32, positive: u32, negative: u32) -> int {
    (if key == positive { 1int } else { 0 }) - (if key == negative { 1int } else { 0 })
}

/// Whether a press of key `k` keeps each movement axis within the range of `i32`
/// at every step: the forwards key adds one before the backwards key takes one
/// away, and the left key adds one before the right key takes one away.
pub open spec fn key_fits(movement: [i32; 2], m: KeyMapping, k: u32) -> bool {
    &&& k == m.forwards ==> movement[0] < i32::MAX
    &&& k == m.backwards ==> movement[0] + (if k == m.forwards { 1int } else { 0 }) > i32::MIN
    &&& k == m.left ==> movement[1] < i32::MAX
    &&& k == m.right ==> movement[1] + (if k == m.left { 1int } else { 0 }) > i32::MIN
}

/// Whether handling `event` keeps the movement axes within the range of `i32`:
/// only a key press while the cursor is grabbed moves them.
pub open spec fn event_fits(event: InputEvent, grabbed: bool, movement: [i32; 2], m: KeyMapping) -> bool {
    match event {
        InputEvent::KeyboardInput { key: Some(k) } => grabbed ==> key_fits(movement, m, k),
        _ => true,
    }
}

/// The inputs after a press of key `k` while the cursor is grabbed: the movement
/// keys move the axes, the pause, jump and sneak keys set their actions.
pub open spec fn after_key(c: GameChanges, m: KeyMapping, k: u32) -> GameChanges {
    GameChanges {
        movement: [
            (c.movement[0] + axis_change(k, m.forwards, m.backwards)) as i32,
            (c.movement[1] + axis_change(k, m.left, m.right)) as i32,
        ],
        use_item: c.use_item,
        activate_item: c.activate_item,
        pause: c.pause || k == m.pause,
        jump: c.jump || k == m.jump,
        sneak: c.sneak || k == m.sneak,
    }
}

/// The inputs and the grab after a press of key `k`: nothing happens while the
/// cursor is free; while it is grabbed the key takes effect, and the pause key
/// frees the cursor.
pub open spec fn key_event(c: GameChanges, grabbed: bool, m: KeyMapping, k: u32) -> (GameChanges, bool) {
    if grabbed {
        (after_key(c, m, k), k != m.pause)
    } else {
        (c, grabbed)
    }
}

/// Law: while the cursor is grabbed, a key press acts binding by binding: the
/// pause, jump and sneak flags are set by their own key and left as they were by
/// any other key; the item flags are left alone; the forwards and backwards keys
/// move the first axis one up and one down, the left and right keys the second;
/// and the cursor is freed exactly by the pause key. While the cursor is free a
/// key press changes nothing.
pub proof fn law_key_press_effects(c: GameChanges, m: KeyMapping, k: u32)
    requires
        key_fits(c.movement, m, k),
    ensures
        ({
            let (n, grabbed) = key_event(c, true, m, k);
            &&& n.sneak == (c.sneak || k == m.sneak)
            &&& n.jump == (c.jump || k == m.jump)
            &&& n.pause == (c.pause || k == m.pause)
            &&& n.use_item == c.use_item
            &&& n.activate_item == c.activate_item
            &&& n.movement[0] == c.movement[0] + (if k == m.forwards { 1int } else { 0 }) - (if k == m.backwards { 1int } else { 0 })
            &&& n.movement[1] == c.movement[1] + (if k == m.left { 1int } else { 0 }) - (if k == m.right { 1int } else { 0 })
            &&& grabbed == (k != m.pause)
        }),
        key_event(c, false, m, k) == (c, false),
{
}

/// Law: two key presses other than the pause key have the same effect in either
/// order (while the movement axes stay within range).
pub proof fn law_key_presses_commute(c: GameChanges, grabbed: bool, m: KeyMapping, k1: u32, k2: u32)
    requires
        k1 != m.pause,
        k2 != m.pause,
        i32::MIN + 2 <= c.movement[0] <= i32::MAX - 2,
        i32::MIN + 2 <= c.movement[1] <= i32::MAX - 2,
    ensures
        ({
            let a = key_event(c, grabbed, m, k1);
            let b = key_event(c, grabbed, m, k2);
            key_event(a.0, a.1, m, k2) == key_event(b.0, b.1, m, k1)
        }),
{
    let a = key_event(c, grabbed, m, k1);
    let b = key_event(c, grabbed, m, k2);
    let ab = key_event(a.0, a.1, m, k2);
    let ba = key_event(b.0, b.1, m, k1);
    assert(ab.0.movement =~= ba.0.movement);
}

impl GameChanges {
    /// No input.
    pub fn new() -> (c: GameChanges)
        ensures
            c.is_empty(),
    {
        GameChanges {
            movement: [0, 0],
            use_item: false,
            activate_item: false,
            pause: false,
            jump: false,
            sneak: false,
        }
    }

    pub open spec fn is_empty(&self) -> bool {
        &&& self.movement == [0i32, 0i32]
        &&& !self.use_item
        &&& !self.activate_item
        &&& !self.pause
        &&& !self.jump
        &&& !self.sneak
    }

    /// Forgets every input.
    pub fn clear(&mut self)
        ensures
            final(self).is_empty(),
    {
        *self = GameChanges::new();
    }

    /// Handles one window event. A click uses (left button) or activates (right
    /// button) the held item and grabs the cursor if it was free. While the cursor
    /// is grabbed, a key press is checked against every binding: the pause key
    /// pauses and frees the cursor, the movement keys add to the movement axes,
    /// the jump and sneak keys set those actions. A cursor move while grabbed asks
    /// for the cursor to be brought back home.
    pub fn handle_event(&mut self, event: &InputEvent, changes: &mut GameChangesContext) -> (action: WindowAction)
        requires
            event_fits(*event, old(changes).grabbed, old(self).movement, old(changes).mappings),
        ensures
            final(changes).mappings == old(changes).mappings,
            final(changes).mouse_home == old(changes).mouse_home,
            match *event {
                InputEvent::MouseInput { button } => {
                    &&& final(self).use_item == (old(self).use_item || button == MouseButton::Left)
                    &&& final(self).activate_item == (old(self).activate_item || button == MouseButton::Right)
                    &&& final(self).movement == old(self).movement
                    &&& final(self).pause == old(self).pause
                    &&& final(self).jump == old(self).jump
                    &&& final(self).sneak == old(self).sneak
                    &&& final(changes).grabbed
                    &&& action == (if old(changes).grabbed { WindowAction::Nothing } else { WindowAction::CaptureMouse })
                },
                InputEvent::KeyboardInput { key } => {
                    &&& key is Some ==> (*final(self), final(changes).grabbed) == key_event(
                        *old(self),
                        old(changes).grabbed,
                        old(changes).mappings,
                        key->0,
                    )
                    &&& key is None ==> *final(self) == *old(self) && final(changes).grabbed == old(changes).grabbed
                    &&& action == (if key is Some && old(changes).grabbed && key->0 == old(changes).mappings.pause {
                        WindowAction::ReleaseMouse
                    } else {
                        WindowAction::Nothing
                    })
                },
                InputEvent::CursorMoved => {
                    &&& *final(self) == *old(self)
                    &&& final(changes).grabbed == old(changes).grabbed
                    &&& action == (if old(changes).grabbed { WindowAction::RecenterCursor } else { WindowAction::Nothing })
                },
                InputEvent::Other => {
                    &&& *final(self) == *old(self)
                    &&& final(changes).grabbed == old(changes).grabbed
                    &&& action == WindowAction::Nothing
                },
            },
    {
        match event {
            InputEvent::MouseInput { button } => {
                if *button == MouseButton::Left {
                    self.use_item = true;
                } else if *button == MouseButton::Right {
                    self.activate_item = true;
                }
                if !changes.grabbed {
                    changes.grabbed = true;
                    WindowAction::CaptureMouse
                } else {
                    WindowAction::Nothing
                }
            },
            InputEvent::KeyboardInput { key } => {
                let mut action = WindowAction::Nothing;
                if key.is_some() && changes.grabbed {
                    let k = key.unwrap();
                    if k == changes.mappings.pause {
                        self.pause = true;
                        changes.grabbed = false;
                        action = WindowAction::ReleaseMouse;
                    }
                    if k == changes.mappings.forwards {
                        self.movement = [self.movement[0] + 1, self.movement[1]];
                    }
                    if k == changes.mappings.backwards {
                        self.movement = [self.movement[0] - 1, self.movement[1]];
                    }
                    if k == changes.mappings.left {
                        self.movement = [self.movement[0], self.movement[1] + 1];
                    }
                    if k == changes.mappings.right {
                        self.movement = [self.movement[0], self.movement[1] - 1];
                    }
                    if k == changes.mappings.jump {
                        self.jump = true;
                    }
                    if k == changes.mappings.sneak {
                        self.sneak = true;
                    }
                }
                action
            },
            InputEvent::CursorMoved => {
                if changes.grabbed {
                    WindowAction::RecenterCursor
                } else {
                    WindowAction::Nothing
                }
            },
            InputEvent::Other => WindowAction::Nothing,
        }
    }
}

} // verus!
