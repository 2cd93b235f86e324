//! Input capture: raw device events into one [`InputFrame`] per simulation tick.
//!
//! The client asserts **intent**, never outcome. So this module accumulates pressed keys,
//! mouse-look deltas and the selected ability slot, and emits exactly one [`InputFrame`]
//! per fixed tick. The server derives all movement and casting results from that intent.
//!
//! | Physical input        | Intent             | Meaning                               |
//! |-----------------------|--------------------|---------------------------------------|
//! | W / A / S / D         | forward/left/back/right | planar movement                  |
//! | Space                 | jump               | jump / (held) levitate                |
//! | Left Ctrl             | crouch             | crouch / slide                        |
//! | Left Shift            | sprint             | sprint (movement ability)             |
//! | Mouse Left            | fire               | **primary cast** of the slotted spell |
//! | Mouse Right           | alt_fire           | **secondary cast** (charge/aim)       |
//! | R                     | reload             | recharge / reattune the focus         |
//! | E                     | interact           | interact / channel                    |
//! | Q                     | melee              | melee / staff strike                  |
//! | 1..=6                 | weapon_slot        | select the active ability slot        |
//! | Mouse move            | yaw / pitch        | look (intent direction)               |

use crate::scalar::{dec, decimal, zero, Scalar};
use vstd::prelude::*;

verus! {

/// The number of selectable ability slots (mapped to keys 1..=6).
pub const ABILITY_SLOTS: u8 = 6;

/// The bit pattern of the steepest look angle: a quarter turn less 0.001 rad, so the camera
/// cannot flip over.
pub const MAX_PITCH: u32 = 0x3fc8_ef16;

/// The same angle, looking down.
pub const MIN_PITCH: u32 = 0xbfc8_ef16;

/// A physical key that means something here.
#[derive(Debug, Clone, Copy, PartialEq, Eq, Structural)]
pub enum Key {
    W,
    A,
    S,
    D,
    Space,
    ControlLeft,
    ShiftLeft,
    R,
    E,
    Q,
    Digit1,
    Digit2,
    Digit3,
    Digit4,
    Digit5,
    Digit6,
    Unmapped,
}

/// A mouse button that means something here.
#[derive(Debug, Clone, Copy, PartialEq, Eq, Structural)]
pub enum MouseButton {
    Left,
    Right,
    Unmapped,
}

/// Which intents are held.
#[derive(Debug, Clone, Copy, PartialEq, Eq, Structural)]
pub struct Buttons {
    pub forward: bool,
    pub back: bool,
    pub left: bool,
    pub right: bool,
    pub jump: bool,
    pub crouch: bool,
    pub sprint: bool,
    pub fire: bool,
    pub alt_fire: bool,
    pub reload: bool,
    pub interact: bool,
    pub melee: bool,
}

impl Default for Buttons {
    fn default() -> (r: Self)
        ensures
            r == Buttons::released(),
    {
        Buttons {
            forward: false,
            back: false,
            left: false,
            right: false,
            jump: false,
            crouch: false,
            sprint: false,
            fire: false,
            alt_fire: false,
            reload: false,
            interact: false,
            melee: false,
        }
    }
}

impl Buttons {
    /// Nothing is held.
    pub open spec fn released() -> Buttons {
        Buttons {
            forward: false,
            back: false,
            left: false,
            right: false,
            jump: false,
            crouch: false,
            sprint: false,
            fire: false,
            alt_fire: false,
            reload: false,
            interact: false,
            melee: false,
        }
    }

    /// The intents held once a key has gone down or up.
    pub open spec fn with_key(self, key: Key, pressed: bool) -> Buttons {
        match key {
            Key::W => Buttons { forward: pressed, ..self },
            Key::S => Buttons { back: pressed, ..self },
            Key::A => Buttons { left: pressed, ..self },
            Key::D => Buttons { right: pressed, ..self },
            Key::Space => Buttons { jump: pressed, ..self },
            Key::ControlLeft => Buttons { crouch: pressed, ..self },
            Key::ShiftLeft => Buttons { sprint: pressed, ..self },
            Key::R => Buttons { reload: pressed, ..self },
            Key::E => Buttons { interact: pressed, ..self },
            Key::Q => Buttons { melee: pressed, ..self },
            _ => self,
        }
    }
}

impl Buttons {
    fn keyed(self, key: Key, pressed: bool) -> (r: Buttons)
        ensures
            r == self.with_key(key, pressed),
    {
        match key {
            Key::W => Buttons { forward: pressed, ..self },
            Key::S => Buttons { back: pressed, ..self },
            Key::A => Buttons { left: pressed, ..self },
            Key::D => Buttons { right: pressed, ..self },
            Key::Space => Buttons { jump: pressed, ..self },
            Key::ControlLeft => Buttons { crouch: pressed, ..self },
            Key::ShiftLeft => Buttons { sprint: pressed, ..self },
            Key::R => Buttons { reload: pressed, ..self },
            Key::E => Buttons { interact: pressed, ..self },
            Key::Q => Buttons { melee: pressed, ..self },
            _ => self,
        }
    }
}

fn key_slot(key: Key) -> (r: Option<u8>)
    ensures
        r == slot_of(key),
{
    match key {
        Key::Digit1 => Some(0),
        Key::Digit2 => Some(1),
        Key::Digit3 => Some(2),
        Key::Digit4 => Some(3),
        Key::Digit5 => Some(4),
        Key::Digit6 => Some(5),
        _ => None,
    }
}

/// The ability slot that a key selects.
pub open spec fn slot_of(key: Key) -> Option<u8> {
    match key {
        Key::Digit1 => Some(0u8),
        Key::Digit2 => Some(1u8),
        Key::Digit3 => Some(2u8),
        Key::Digit4 => Some(3u8),
        Key::Digit5 => Some(4u8),
        Key::Digit6 => Some(5u8),
        _ => None,
    }
}

/// The intent of one tick.
#[derive(Debug, Clone, Copy, PartialEq, Eq, Structural)]
pub struct InputFrame {
    /// Monotonic input sequence number, for reconciliation.
    pub seq: u32,
    /// The server tick that the client believes is current.
    pub client_tick: u32,
    pub buttons: Buttons,
    pub yaw: Scalar,
    pub pitch: Scalar,
    pub weapon_slot: u8,
}

/// Accumulates raw input between ticks and produces [`InputFrame`]s.
#[derive(Debug, Clone, Copy, PartialEq, Eq, Structural)]
pub struct Input {
    /// Live button intent, rebuilt as keys/mouse buttons go down/up.
    pub buttons: Buttons,
    /// Currently selected ability slot (0-based).
    pub slot: u8,
    /// Integrated look angles, radians.
    pub yaw: Scalar,
    pub pitch: Scalar,
    /// Mouse motion accumulated since the last tick.
    pub mouse_dx: Scalar,
    pub mouse_dy: Scalar,
    /// Look sensitivity (radians per pixel).
    pub sensitivity: Scalar,
    /// Sequence number of the last frame.
    pub seq: u32,
    /// Whether the pointer is currently locked (mouse-look active).
    pub pointer_locked: bool,
}

impl Default for Input {
    fn default() -> (r: Self)
        ensures
            r.well_formed(),
            r.buttons == Buttons::released(),
            r.slot == 0,
            r.yaw.bits == 0,
            r.pitch.bits == 0,
            r.mouse_dx.bits == 0,
            r.mouse_dy.bits == 0,
            r.sensitivity == decimal(22, 4),
            r.seq == 0,
            !r.pointer_locked,
    {
        Input {
            buttons: Buttons::default(),
            slot: 0,
            yaw: zero(),
            pitch: zero(),
            mouse_dx: zero(),
            mouse_dy: zero(),
            sensitivity: dec(22, 4),
            seq: 0,
            pointer_locked: false,
        }
    }
}

impl Input {
    /// The selected slot is one of the ability slots.
    pub open spec fn well_formed(self) -> bool {
        self.slot < ABILITY_SLOTS
    }

    /// Nothing pressed, nothing looked at.
    pub fn new() -> (r: Self)
        ensures
            call_ensures(Input::default, (), r),
    {
        Input::default()
    }

    /// Apply a key down/up. `pressed` is true on press, false on release. Ability slots are
    /// selected on key-down only (edge, not hold).
    pub fn on_key(&mut self, key: Key, pressed: bool)
        ensures
            *final(self) == (Input {
                buttons: old(self).buttons.with_key(key, pressed),
                slot: match slot_of(key) {
                    Some(slot) => if pressed {
                        slot
                    } else {
                        old(self).slot
                    },
                    None => old(self).slot,
                },
                ..*old(self)
            }),
            old(self).well_formed() ==> final(self).well_formed(),
    {
        self.buttons = self.buttons.keyed(key, pressed);
        match key_slot(key) {
            Some(slot) => {
                if pressed {
                    self.slot = slot;
                }
            },
            None => {},
        }
    }

    /// Apply a mouse-button down/up. Left = primary cast, Right = secondary cast.
    pub fn on_mouse_button(&mut self, button: MouseButton, pressed: bool)
        ensures
            *final(self) == (Input {
                buttons: match button {
                    MouseButton::Left => Buttons { fire: pressed, ..old(self).buttons },
                    MouseButton::Right => Buttons { alt_fire: pressed, ..old(self).buttons },
                    MouseButton::Unmapped => old(self).buttons,
                },
                ..*old(self)
            }),
    {
        match button {
            MouseButton::Left => {
                self.buttons.fire = pressed;
            },
            MouseButton::Right => {
                self.buttons.alt_fire = pressed;
            },
            MouseButton::Unmapped => {},
        }
    }

    /// Accumulate raw mouse motion (device-space pixels) with `plus`. Only consumed while
    /// the pointer is locked, so UI interaction never moves the view.
    pub fn on_mouse_motion<A: Fn(Scalar, Scalar) -> Scalar>(&mut self, dx: Scalar, dy: Scalar, plus: &A)
        requires
            forall|x: Scalar, y: Scalar| call_requires(*plus, (x, y)),
        ensures
            *final(self) == (Input {
                mouse_dx: final(self).mouse_dx,
                mouse_dy: final(self).mouse_dy,
                ..*old(self)
            }),
            if old(self).pointer_locked {
                &&& call_ensures(*plus, (old(self).mouse_dx, dx), final(self).mouse_dx)
                &&& call_ensures(*plus, (old(self).mouse_dy, dy), final(self).mouse_dy)
            } else {
                *final(self) == *old(self)
            },
    {
        if self.pointer_locked {
            self.mouse_dx = plus(self.mouse_dx, dx);
            self.mouse_dy = plus(self.mouse_dy, dy);
        }
    }

    /// Produce the frame for tick `client_tick` and consume the motion since the last one.
    /// `yaw` and `pitch` are the look angles with that motion folded in, `yaw` wrapped to a
    /// full turn; the pitch is clamped here. Call once per fixed tick.
    pub fn end_tick(&mut self, client_tick: u32, yaw: Scalar, pitch: Scalar) -> (r: InputFrame)
        ensures
            *final(self) == (Input {
                yaw,
                pitch: pitch.clamped(Scalar { bits: MIN_PITCH }, Scalar { bits: MAX_PITCH }),
                mouse_dx: Scalar { bits: 0 },
                mouse_dy: Scalar { bits: 0 },
                seq: old(self).seq.wrapping_add(1),
                ..*old(self)
            }),
            r == (InputFrame {
                seq: final(self).seq,
                client_tick,
                buttons: final(self).buttons,
                yaw: final(self).yaw,
                pitch: final(self).pitch,
                weapon_slot: final(self).slot,
            }),
    {
        self.yaw = yaw;
        self.pitch = pitch.clamp(Scalar { bits: MIN_PITCH }, Scalar { bits: MAX_PITCH });
        self.mouse_dx = zero();
        self.mouse_dy = zero();
        self.seq = self.seq.wrapping_add(1);
        InputFrame {
            seq: self.seq,
            client_tick,
            buttons: self.buttons,
            yaw: self.yaw,
            pitch: self.pitch,
            weapon_slot: self.slot,
        }
    }

    /// Current look angles, for snapping the camera between ticks (so the view is smooth at
    /// render rate even though frames are produced at tick rate).
    pub fn look(&self) -> (r: (Scalar, Scalar))
        ensures
            r == (self.yaw, self.pitch),
    {
        (self.yaw, self.pitch)
    }

    /// Selected ability slot.
    pub fn slot(&self) -> (r: u8)
        ensures
            r == self.slot,
    {
        self.slot
    }

    /// Latest input sequence stamped (diagnostics / HUD netgraph).
    pub fn last_seq(&self) -> (r: u32)
        ensures
            r == self.seq,
    {
        self.seq
    }
}

/// Letting a key go undoes pressing it, for every key that holds an intent which was not
/// held before.
pub proof fn release_undoes_press(buttons: Buttons, key: Key)
    requires
        buttons == Buttons::released(),
    ensures
        buttons.with_key(key, true).with_key(key, false) == buttons,
{
}

/// The camera cannot flip over: whatever pitch is asked for, the pitch of a frame lies
/// within the two limits.
pub proof fn pitch_stays_within_limits(pitch: Scalar)
    requires
        !pitch.nan(),
    ensures
        ({
            let clamped = pitch.clamped(Scalar { bits: MIN_PITCH }, Scalar { bits: MAX_PITCH });
            &&& (Scalar { bits: MIN_PITCH }).at_most(clamped)
            &&& clamped.at_most(Scalar { bits: MAX_PITCH })
        }),
{
}

/// A key holds its own intent and no other: it is held while the key is, whatever else is. A key
/// that picks a slot holds none.
pub proof fn keys_hold_their_own_intent(b: Buttons, pressed: bool, other: Key)
    ensures
        b.with_key(Key::W, pressed) == (Buttons { forward: pressed, ..b }),
        b.with_key(Key::S, pressed) == (Buttons { back: pressed, ..b }),
        b.with_key(Key::A, pressed) == (Buttons { left: pressed, ..b }),
        b.with_key(Key::D, pressed) == (Buttons { right: pressed, ..b }),
        b.with_key(Key::Space, pressed) == (Buttons { jump: pressed, ..b }),
        b.with_key(Key::ControlLeft, pressed) == (Buttons { crouch: pressed, ..b }),
        b.with_key(Key::ShiftLeft, pressed) == (Buttons { sprint: pressed, ..b }),
        b.with_key(Key::R, pressed) == (Buttons { reload: pressed, ..b }),
        b.with_key(Key::E, pressed) == (Buttons { interact: pressed, ..b }),
        b.with_key(Key::Q, pressed) == (Buttons { melee: pressed, ..b }),
        slot_of(other) is Some || other is Unmapped ==> b.with_key(other, pressed) == b,
{
}

/// The number row picks the slots in order, and no other key picks one.
pub proof fn numbers_pick_slots_in_order(key: Key)
    ensures
        slot_of(Key::Digit1) == Some(0u8),
        slot_of(Key::Digit2) == Some(1u8),
        slot_of(Key::Digit3) == Some(2u8),
        slot_of(Key::Digit4) == Some(3u8),
        slot_of(Key::Digit5) == Some(4u8),
        slot_of(Key::Digit6) == Some(5u8),
        slot_of(key) matches Some(slot) ==> slot < ABILITY_SLOTS,
        slot_of(key) is Some <==> key is Digit1 || key is Digit2 || key is Digit3 || key is Digit4
            || key is Digit5 || key is Digit6,
{
}

/// With nothing pressed, nothing is intended.
pub proof fn released_intends_nothing()
    ensures
        ({
            let b = Buttons::released();
            !(b.forward || b.back || b.left || b.right || b.jump || b.crouch || b.sprint || b.fire
                || b.alt_fire || b.reload || b.interact || b.melee)
        }),
{
}

/// A key that goes down and up again leaves every other intent and the look alone; a slot key picks its
/// slot on the way down and keeps it on the way up.
pub proof fn presses_and_releases(down: &mut Input, key: Key, up: &mut Input)
    requires
        call_ensures(Input::on_key, (down, key, true), ()),
        *old(up) == *final(down),
        call_ensures(Input::on_key, (up, key, false), ()),
    ensures
        final(up).slot == final(down).slot,
        key is Digit1 ==> final(down).slot == 0,
        key is Digit2 ==> final(down).slot == 1,
        key is Digit3 ==> final(down).slot == 2,
        key is Digit4 ==> final(down).slot == 3,
        key is Digit5 ==> final(down).slot == 4,
        key is Digit6 ==> final(down).slot == 5,
        key is W ==> final(down).buttons.forward && !final(up).buttons.forward,
        key is Space ==> final(down).buttons.jump && !final(up).buttons.jump,
        key is W ==> final(up).slot == old(down).slot && final(up).buttons == (Buttons {
            forward: false,
            ..old(down).buttons
        }),
        final(up).buttons.fire == old(down).buttons.fire,
        final(up).buttons.alt_fire == old(down).buttons.alt_fire,
        final(up).yaw == old(down).yaw && final(up).pitch == old(down).pitch,
        final(up).mouse_dx == old(down).mouse_dx && final(up).mouse_dy == old(down).mouse_dy,
        final(up).seq == old(down).seq,
        final(up).pointer_locked == old(down).pointer_locked,
{
}

/// The left mouse button casts, the right one casts the second spell, each while it is held, and no
/// other button does anything.
pub proof fn mouse_buttons_cast(input: &mut Input, button: MouseButton, pressed: bool)
    requires
        call_ensures(Input::on_mouse_button, (input, button, pressed), ()),
    ensures
        button is Left ==> *final(input) == (Input {
            buttons: Buttons { fire: pressed, ..old(input).buttons },
            ..*old(input)
        }),
        button is Right ==> *final(input) == (Input {
            buttons: Buttons { alt_fire: pressed, ..old(input).buttons },
            ..*old(input)
        }),
        button is Unmapped ==> *final(input) == *old(input),
{
}

/// Frames are numbered one after the other and carry what is held and looked at; a frame uses the
/// mouse's motion up, and holds the pitch within the two limits.
pub proof fn frames_follow_each_other(
    first: &mut Input,
    tick: u32,
    yaw: Scalar,
    pitch: Scalar,
    a: InputFrame,
    second: &mut Input,
    next_tick: u32,
    next_yaw: Scalar,
    next_pitch: Scalar,
    b: InputFrame,
)
    requires
        call_ensures(Input::end_tick, (first, tick, yaw, pitch), a),
        *old(second) == *final(first),
        call_ensures(Input::end_tick, (second, next_tick, next_yaw, next_pitch), b),
    ensures
        old(first).seq < u32::MAX - 1 ==> a.seq == old(first).seq + 1 && b.seq == a.seq + 1,
        a.client_tick == tick && b.client_tick == next_tick,
        a.buttons == old(first).buttons && b.buttons == old(first).buttons,
        a.weapon_slot == old(first).slot && b.weapon_slot == old(first).slot,
        a.yaw == yaw && b.yaw == next_yaw,
        (Scalar { bits: MIN_PITCH }).at_most(pitch) && pitch.at_most(Scalar { bits: MAX_PITCH })
            ==> a.pitch == pitch,
        !pitch.nan() ==> (Scalar { bits: MIN_PITCH }).at_most(a.pitch) && a.pitch.at_most(
            Scalar { bits: MAX_PITCH },
        ),
        final(first).mouse_dx.bits == 0 && final(first).mouse_dy.bits == 0,
        final(first).yaw == a.yaw && final(first).pitch == a.pitch,
{
}

/// The mouse turns the view only while the pointer is locked.
pub proof fn only_a_locked_pointer_looks<A: Fn(Scalar, Scalar) -> Scalar>(
    input: &mut Input,
    dx: Scalar,
    dy: Scalar,
    plus: &A,
)
    requires
        call_ensures(Input::on_mouse_motion::<A>, (input, dx, dy, plus), ()),
    ensures
        !old(input).pointer_locked ==> *final(input) == *old(input),
        old(input).pointer_locked ==> call_ensures(*plus, (old(input).mouse_dx, dx), final(input).mouse_dx)
            && call_ensures(*plus, (old(input).mouse_dy, dy), final(input).mouse_dy),
        final(input).buttons == old(input).buttons,
        final(input).seq == old(input).seq,
{
}

} // verus!
