//! Buttons, the key binding, and the per-frame input state.
//!
//! The host reports keys by their key code. Each frame it hands over two
//! lists: the keys that went down since the previous frame, and the keys
//! held right now. A button is *pressed* when a key bound to it went down
//! this frame, and *down* when a key bound to it is held. The two are
//! independent: a key released and pressed again within one frame is pressed
//! although it was held before, and a key held across frames is down without
//! being pressed.

use vstd::prelude::*;

verus! {

/// The six logical buttons.
#[allow(non_camel_case_types)]
#[derive(Clone, Copy, Debug, PartialEq, Eq)]
pub enum Button {
    LEFT,
    RIGHT,
    UP,
    DOWN,
    A,
    B,
}

/// A key code as the host's keyboard layer reports it.
pub type Keycode = i32;

/// Key code of the `a` key.
pub const KEY_A: Keycode = 97;

/// Key code of the `b` key.
pub const KEY_B: Keycode = 98;

/// Key code of the right arrow.
pub const KEY_RIGHT: Keycode = 1073741903;

/// Key code of the left arrow.
pub const KEY_LEFT: Keycode = 1073741904;

/// Key code of the down arrow.
pub const KEY_DOWN: Keycode = 1073741905;

/// Key code of the up arrow.
pub const KEY_UP: Keycode = 1073741906;

/// The binding table: the button a key is bound to, if any.
pub open spec fn binding(key: Keycode) -> Option<Button> {
    if key == KEY_UP {
        Some(Button::UP)
    } else if key == KEY_DOWN {
        Some(Button::DOWN)
    } else if key == KEY_LEFT {
        Some(Button::LEFT)
    } else if key == KEY_RIGHT {
        Some(Button::RIGHT)
    } else if key == KEY_A {
        Some(Button::A)
    } else if key == KEY_B {
        Some(Button::B)
    } else {
        None
    }
}

/// Whether one of the first `n` keys of `keys` is bound to `b`.
pub open spec fn bound_before(keys: Seq<Keycode>, n: int, b: Button) -> bool {
    exists|i: int| 0 <= i < n && i < keys.len() && #[trigger] binding(keys[i]) == Some(b)
}

/// Whether some key of `keys` is bound to `b`.
pub open spec fn bound_in(keys: Seq<Keycode>, b: Button) -> bool {
    bound_before(keys, keys.len() as int, b)
}

/// Looks a key up in the binding table. A key that is bound to no button
/// gives `None`.
pub fn button_for_key(key: Keycode) -> (b: Option<Button>)
    ensures
        b == binding(key),
{
    match key {
        KEY_UP => Some(Button::UP),
        KEY_DOWN => Some(Button::DOWN),
        KEY_LEFT => Some(Button::LEFT),
        KEY_RIGHT => Some(Button::RIGHT),
        KEY_A => Some(Button::A),
        KEY_B => Some(Button::B),
        _ => None,
    }
}

/// What the six buttons do in one frame.
#[derive(Clone, Copy, Debug, PartialEq, Eq)]
pub struct InputState {
    pub left_down: bool,
    pub left_pressed: bool,
    pub right_down: bool,
    pub right_pressed: bool,
    pub up_down: bool,
    pub up_pressed: bool,
    pub down_down: bool,
    pub down_pressed: bool,
    pub a_down: bool,
    pub a_pressed: bool,
    pub b_down: bool,
    pub b_pressed: bool,
}

impl InputState {
    /// Whether `b` is held.
    pub open spec fn is_down(self, b: Button) -> bool {
        match b {
            Button::LEFT => self.left_down,
            Button::RIGHT => self.right_down,
            Button::UP => self.up_down,
            Button::DOWN => self.down_down,
            Button::A => self.a_down,
            Button::B => self.b_down,
        }
    }

    /// Whether `b` went down this frame.
    pub open spec fn is_pressed(self, b: Button) -> bool {
        match b {
            Button::LEFT => self.left_pressed,
            Button::RIGHT => self.right_pressed,
            Button::UP => self.up_pressed,
            Button::DOWN => self.down_pressed,
            Button::A => self.a_pressed,
            Button::B => self.b_pressed,
        }
    }

    /// The state in which no button is held and none was pressed.
    pub open spec fn idle() -> InputState {
        InputState {
            left_down: false,
            left_pressed: false,
            right_down: false,
            right_pressed: false,
            up_down: false,
            up_pressed: false,
            down_down: false,
            down_pressed: false,
            a_down: false,
            a_pressed: false,
            b_down: false,
            b_pressed: false,
        }
    }

    /// The state of a frame in which the keys `key_downs` went down and the
    /// keys `held` are held.
    pub open spec fn sampled(key_downs: Seq<Keycode>, held: Seq<Keycode>) -> InputState {
        InputState {
            left_down: bound_in(held, Button::LEFT),
            left_pressed: bound_in(key_downs, Button::LEFT),
            right_down: bound_in(held, Button::RIGHT),
            right_pressed: bound_in(key_downs, Button::RIGHT),
            up_down: bound_in(held, Button::UP),
            up_pressed: bound_in(key_downs, Button::UP),
            down_down: bound_in(held, Button::DOWN),
            down_pressed: bound_in(key_downs, Button::DOWN),
            a_down: bound_in(held, Button::A),
            a_pressed: bound_in(key_downs, Button::A),
            b_down: bound_in(held, Button::B),
            b_pressed: bound_in(key_downs, Button::B),
        }
    }

    /// A state in which no button is held and none was pressed.
    pub fn new() -> (state: InputState)
        ensures
            state == InputState::idle(),
    {
        InputState {
            left_down: false,
            left_pressed: false,
            right_down: false,
            right_pressed: false,
            up_down: false,
            up_pressed: false,
            down_down: false,
            down_pressed: false,
            a_down: false,
            a_pressed: false,
            b_down: false,
            b_pressed: false,
        }
    }

    /// Whether `b` is held.
    pub fn down(&self, b: Button) -> (held: bool)
        ensures
            held == self.is_down(b),
    {
        match b {
            Button::LEFT => self.left_down,
            Button::RIGHT => self.right_down,
            Button::UP => self.up_down,
            Button::DOWN => self.down_down,
            Button::A => self.a_down,
            Button::B => self.b_down,
        }
    }

    /// Whether `b` went down this frame.
    pub fn pressed(&self, b: Button) -> (hit: bool)
        ensures
            hit == self.is_pressed(b),
    {
        match b {
            Button::LEFT => self.left_pressed,
            Button::RIGHT => self.right_pressed,
            Button::UP => self.up_pressed,
            Button::DOWN => self.down_pressed,
            Button::A => self.a_pressed,
            Button::B => self.b_pressed,
        }
    }

    /// Records that `b` is held. Nothing else changes.
    pub fn hold(&mut self, b: Button)
        ensures
            forall|c: Button| final(self).is_down(c) == (c == b || old(self).is_down(c)),
            forall|c: Button| final(self).is_pressed(c) == old(self).is_pressed(c),
    {
        match b {
            Button::LEFT => self.left_down = true,
            Button::RIGHT => self.right_down = true,
            Button::UP => self.up_down = true,
            Button::DOWN => self.down_down = true,
            Button::A => self.a_down = true,
            Button::B => self.b_down = true,
        }
    }

    /// Records that `b` went down this frame. Nothing else changes.
    pub fn press(&mut self, b: Button)
        ensures
            forall|c: Button| final(self).is_pressed(c) == (c == b || old(self).is_pressed(c)),
            forall|c: Button| final(self).is_down(c) == old(self).is_down(c),
    {
        match b {
            Button::LEFT => self.left_pressed = true,
            Button::RIGHT => self.right_pressed = true,
            Button::UP => self.up_pressed = true,
            Button::DOWN => self.down_pressed = true,
            Button::A => self.a_pressed = true,
            Button::B => self.b_pressed = true,
        }
    }

    /// Builds the state of one frame from the keys that went down since the
    /// previous frame and the keys held now. Keys bound to no button are
    /// passed over.
    pub fn sample(key_downs: &[Keycode], held: &[Keycode]) -> (state: InputState)
        ensures
            state == InputState::sampled(key_downs@, held@),
    {
        let mut state = InputState::new();
        let mut i: usize = 0;
        while i < key_downs.len()
            invariant
                i <= key_downs.len(),
                forall|c: Button| state.is_pressed(c) == bound_before(key_downs@, i as int, c),
                forall|c: Button| !state.is_down(c),
            decreases key_downs.len() - i,
        {
            match button_for_key(key_downs[i]) {
                Some(b) => state.press(b),
                None => {},
            }
            proof {
                assert forall|c: Button| state.is_pressed(c) == bound_before(
                    key_downs@,
                    i + 1,
                    c,
                ) by {
                    lemma_bound_step(key_downs@, i as int, c);
                }
            }
            i += 1;
        }
        let mut j: usize = 0;
        while j < held.len()
            invariant
                j <= held.len(),
                forall|c: Button| state.is_pressed(c) == bound_in(key_downs@, c),
                forall|c: Button| state.is_down(c) == bound_before(held@, j as int, c),
            decreases held.len() - j,
        {
            match button_for_key(held[j]) {
                Some(b) => state.hold(b),
                None => {},
            }
            proof {
                assert forall|c: Button| state.is_down(c) == bound_before(held@, j + 1, c) by {
                    lemma_bound_step(held@, j as int, c);
                }
            }
            j += 1;
        }
        proof {
            let want = InputState::sampled(key_downs@, held@);
            assert(state.is_down(Button::LEFT) == want.is_down(Button::LEFT));
            assert(state.is_down(Button::RIGHT) == want.is_down(Button::RIGHT));
            assert(state.is_down(Button::UP) == want.is_down(Button::UP));
            assert(state.is_down(Button::DOWN) == want.is_down(Button::DOWN));
            assert(state.is_down(Button::A) == want.is_down(Button::A));
            assert(state.is_down(Button::B) == want.is_down(Button::B));
            assert(state.is_pressed(Button::LEFT) == want.is_pressed(Button::LEFT));
            assert(state.is_pressed(Button::RIGHT) == want.is_pressed(Button::RIGHT));
            assert(state.is_pressed(Button::UP) == want.is_pressed(Button::UP));
            assert(state.is_pressed(Button::DOWN) == want.is_pressed(Button::DOWN));
            assert(state.is_pressed(Button::A) == want.is_pressed(Button::A));
            assert(state.is_pressed(Button::B) == want.is_pressed(Button::B));
        }
        state
    }
}

/// One more key is bound to `b` exactly when that key is, or an earlier one.
proof fn lemma_bound_step(keys: Seq<Keycode>, n: int, b: Button)
    requires
        0 <= n < keys.len(),
    ensures
        bound_before(keys, n + 1, b) == (bound_before(keys, n, b) || binding(keys[n]) == Some(b)),
{
    if bound_before(keys, n + 1, b) {
        let i = choose|i: int| 0 <= i < n + 1 && i < keys.len() && #[trigger] binding(keys[i]) == Some(b);
        if i < n {
            assert(bound_before(keys, n, b));
        }
    }
    if bound_before(keys, n, b) {
        let i = choose|i: int| 0 <= i < n && i < keys.len() && #[trigger] binding(keys[i]) == Some(b);
        assert(0 <= i < n + 1 && binding(keys[i]) == Some(b));
    }
    if binding(keys[n]) == Some(b) {
        assert(bound_before(keys, n + 1, b));
    }
}

/// A button is pressed and down in the frame in which a key bound to it went
/// down and is held.
pub proof fn lemma_pressed_on_key_down(
    key_downs: Seq<Keycode>,
    held: Seq<Keycode>,
    key: Keycode,
    b: Button,
)
    requires
        binding(key) == Some(b),
        key_downs.contains(key),
        held.contains(key),
    ensures
        InputState::sampled(key_downs, held).is_pressed(b),
        InputState::sampled(key_downs, held).is_down(b),
{
    lemma_contains_bound(key_downs, key, b);
    lemma_contains_bound(held, key, b);
}

/// A button is down and not pressed in a frame in which a key bound to it
/// is held and no key bound to it went down.
pub proof fn lemma_held_without_press(
    key_downs: Seq<Keycode>,
    held: Seq<Keycode>,
    key: Keycode,
    b: Button,
)
    requires
        binding(key) == Some(b),
        held.contains(key),
        !bound_in(key_downs, b),
    ensures
        !InputState::sampled(key_downs, held).is_pressed(b),
        InputState::sampled(key_downs, held).is_down(b),
{
    lemma_contains_bound(held, key, b);
}

/// A button is neither down nor pressed in a frame in which no key bound to
/// it is held and none went down.
pub proof fn lemma_idle_when_released(key_downs: Seq<Keycode>, held: Seq<Keycode>, b: Button)
    requires
        !bound_in(key_downs, b),
        !bound_in(held, b),
    ensures
        !InputState::sampled(key_downs, held).is_pressed(b),
        !InputState::sampled(key_downs, held).is_down(b),
{
}

/// A key-down of a key registers as a press whether or not the key is
/// still held, and whether or not it was held before.
pub proof fn lemma_press_independent_of_held(
    key_downs: Seq<Keycode>,
    held: Seq<Keycode>,
    other_held: Seq<Keycode>,
    b: Button,
)
    ensures
        InputState::sampled(key_downs, held).is_pressed(b) == InputState::sampled(
            key_downs,
            other_held,
        ).is_pressed(b),
{
}

/// A list that holds a key bound to `b` holds some key bound to `b`.
proof fn lemma_contains_bound(keys: Seq<Keycode>, key: Keycode, b: Button)
    requires
        binding(key) == Some(b),
        keys.contains(key),
    ensures
        bound_in(keys, b),
{
    let i = choose|i: int| 0 <= i < keys.len() && keys[i] == key;
    assert(binding(keys[i]) == Some(b));
}

/// The raw state of the host's arrow keys and space bar.
#[derive(Clone, Copy, Debug, PartialEq, Eq)]
pub struct PlayerInput {
    pub up: bool,
    pub down: bool,
    pub left: bool,
    pub right: bool,
    pub space: bool,
}

impl PlayerInput {
    /// The state in which no key is held.
    pub fn new() -> (input: PlayerInput)
        ensures
            input == (PlayerInput { up: false, down: false, left: false, right: false, space: false }),
    {
        PlayerInput { up: false, down: false, left: false, right: false, space: false }
    }
}

} // verus!
