//! Keyboard input: which keys steer the camera, and the input state that
//! collects held keys into a camera movement.

use vstd::prelude::*;

verus! {

use vstd::string::StrSliceExecFns;

/// The four directions the camera can be steered in.
#[derive(Debug, Clone, Copy, PartialEq, Eq, Structural, PartialOrd, Ord)]
pub enum DirectionKey {
    Up,
    Left,
    Down,
    Right,
}

/// The slot of `InputState::keystate` that holds a direction.
pub open spec fn slot(dir: DirectionKey) -> nat {
    match dir {
        DirectionKey::Up => 0,
        DirectionKey::Left => 1,
        DirectionKey::Down => 2,
        DirectionKey::Right => 3,
    }
}

/// A key as the keyboard layout names it: the text it types, or a key that
/// types none.
#[derive(Debug, Clone)]
pub enum LogicalKey {
    Character(String),
    Other,
}

/// The physical keys that the input handling tells apart; every other key
/// is `Other`.
#[derive(Debug, Clone, Copy, PartialEq, Eq, Structural)]
pub enum KeyCode {
    KeyW,
    KeyA,
    KeyS,
    KeyD,
    KeyH,
    KeyJ,
    KeyK,
    KeyL,
    KeyR,
    Other,
}

/// A key by its position on the keyboard, or one the platform could not
/// identify.
#[derive(Debug, Clone, Copy, PartialEq, Eq, Structural)]
pub enum PhysicalKey {
    Code(KeyCode),
    Unidentified,
}

/// The direction a typed text steers in: `w`, `a`, `s`, `d`.
pub open spec fn logical_direction(key: LogicalKey) -> Option<DirectionKey> {
    match key {
        LogicalKey::Character(c) => if c@ == seq!['w'] {
            Some(DirectionKey::Up)
        } else if c@ == seq!['a'] {
            Some(DirectionKey::Left)
        } else if c@ == seq!['s'] {
            Some(DirectionKey::Down)
        } else if c@ == seq!['d'] {
            Some(DirectionKey::Right)
        } else {
            None
        },
        LogicalKey::Other => None,
    }
}

/// The direction a physical key steers in: WASD and the HJKL keys.
pub open spec fn physical_direction(key: PhysicalKey) -> Option<DirectionKey> {
    match key {
        PhysicalKey::Code(code) => match code {
            KeyCode::KeyW | KeyCode::KeyK => Some(DirectionKey::Up),
            KeyCode::KeyS | KeyCode::KeyJ => Some(DirectionKey::Down),
            KeyCode::KeyA | KeyCode::KeyH => Some(DirectionKey::Left),
            KeyCode::KeyD | KeyCode::KeyL => Some(DirectionKey::Right),
            _ => None,
        },
        PhysicalKey::Unidentified => None,
    }
}

impl DirectionKey {
    /// The slot of `InputState::keystate` that holds this direction.
    pub fn index(self) -> (i: usize)
        ensures
            i == slot(self),
        no_unwind
    {
        match self {
            DirectionKey::Up => 0,
            DirectionKey::Left => 1,
            DirectionKey::Down => 2,
            DirectionKey::Right => 3,
        }
    }

    /// The direction that a typed text steers in (`w`, `a`, `s`, `d`).
    pub fn from_logical_key(key: LogicalKey) -> (dir: Option<Self>)
        ensures
            dir == logical_direction(key),
    {
        match key {
            LogicalKey::Character(c) => {
                let text = c.as_str();
                if text.unicode_len() != 1 {
                    return None;
                }
                let ch = text.get_char(0);
                proof {
                    assert(text@ =~= seq![ch]);
                }
                if ch == 'w' {
                    Some(DirectionKey::Up)
                } else if ch == 'a' {
                    Some(DirectionKey::Left)
                } else if ch == 's' {
                    Some(DirectionKey::Down)
                } else if ch == 'd' {
                    Some(DirectionKey::Right)
                } else {
                    None
                }
            },
            LogicalKey::Other => None,
        }
    }

    /// The direction that a physical key steers in (WASD, or HJKL).
    pub fn from_physical_key(key: PhysicalKey) -> (dir: Option<Self>)
        ensures
            dir == physical_direction(key),
    {
        if let PhysicalKey::Code(k) = key {
            match k {
                KeyCode::KeyW | KeyCode::KeyK => Some(DirectionKey::Up),
                KeyCode::KeyS | KeyCode::KeyJ => Some(DirectionKey::Down),
                KeyCode::KeyA | KeyCode::KeyH => Some(DirectionKey::Left),
                KeyCode::KeyD | KeyCode::KeyL => Some(DirectionKey::Right),
                _ => None,
            }
        } else {
            None
        }
    }
}

/// Distinct directions are held in distinct slots of the key state, and
/// every slot is one of its four.
pub proof fn lemma_direction_slots_distinct(a: DirectionKey, b: DirectionKey)
    ensures
        slot(a) < 4,
        a != b ==> slot(a) != slot(b),
{
}

/// Only the four texts `w`, `a`, `s`, `d` steer, each its own way: `w`
/// up, `a` left, `s` down, `d` right. Every other text, and every key that
/// types no text, steers nowhere.
pub proof fn lemma_only_wasd_texts_steer(key: LogicalKey)
    ensures
        (logical_direction(key) == Some(DirectionKey::Up)) <==> match key {
            LogicalKey::Character(c) => c@ == seq!['w'],
            LogicalKey::Other => false,
        },
        (logical_direction(key) == Some(DirectionKey::Left)) <==> match key {
            LogicalKey::Character(c) => c@ == seq!['a'],
            LogicalKey::Other => false,
        },
        (logical_direction(key) == Some(DirectionKey::Down)) <==> match key {
            LogicalKey::Character(c) => c@ == seq!['s'],
            LogicalKey::Other => false,
        },
        (logical_direction(key) == Some(DirectionKey::Right)) <==> match key {
            LogicalKey::Character(c) => c@ == seq!['d'],
            LogicalKey::Other => false,
        },
        (logical_direction(key) is None) <==> match key {
            LogicalKey::Character(c) => c@ != seq!['w'] && c@ != seq!['a'] && c@ != seq!['s']
                && c@ != seq!['d'],
            LogicalKey::Other => true,
        },
{
    assert(seq!['w'][0] == 'w' && seq!['a'][0] == 'a' && seq!['s'][0] == 's' && seq!['d'][0] == 'd');
}

/// Only the WASD and HJKL keys steer, each its own way: W and K up, A and
/// H left, S and J down, D and L right. Every other key steers nowhere.
pub proof fn lemma_only_wasd_hjkl_keys_steer(key: PhysicalKey)
    ensures
        (physical_direction(key) == Some(DirectionKey::Up)) <==> (key == PhysicalKey::Code(
            KeyCode::KeyW,
        ) || key == PhysicalKey::Code(KeyCode::KeyK)),
        (physical_direction(key) == Some(DirectionKey::Left)) <==> (key == PhysicalKey::Code(
            KeyCode::KeyA,
        ) || key == PhysicalKey::Code(KeyCode::KeyH)),
        (physical_direction(key) == Some(DirectionKey::Down)) <==> (key == PhysicalKey::Code(
            KeyCode::KeyS,
        ) || key == PhysicalKey::Code(KeyCode::KeyJ)),
        (physical_direction(key) == Some(DirectionKey::Right)) <==> (key == PhysicalKey::Code(
            KeyCode::KeyD,
        ) || key == PhysicalKey::Code(KeyCode::KeyL)),
{
}

/// The key state slots of the directions, and the step a key counts for:
/// up is slot 0, left 1, down 2, right 3; a held key counts one, a
/// released key nothing.
pub proof fn lemma_direction_slots(keys: [bool; 4])
    ensures
        held(keys, DirectionKey::Up) == keys@[0],
        held(keys, DirectionKey::Left) == keys@[1],
        held(keys, DirectionKey::Down) == keys@[2],
        held(keys, DirectionKey::Right) == keys@[3],
        count(true) == 1,
        count(false) == 0,
{
}

/// Both key mappings steer the same way on the WASD keys.
pub proof fn lemma_key_mappings_agree_on_wasd(text: String, code: KeyCode)
    requires
        (text@ == seq!['w'] && code == KeyCode::KeyW) || (text@ == seq!['a'] && code
            == KeyCode::KeyA) || (text@ == seq!['s'] && code == KeyCode::KeyS) || (text@
            == seq!['d'] && code == KeyCode::KeyD),
    ensures
        logical_direction(LogicalKey::Character(text)) == physical_direction(
            PhysicalKey::Code(code),
        ),
        logical_direction(LogicalKey::Character(text)) is Some,
{
    let c = text@[0];
    assert(seq!['w'][0] == 'w' && seq!['a'][0] == 'a' && seq!['s'][0] == 's' && seq!['d'][0] == 'd');
    assert(c == 'w' ==> text@ != seq!['a'] && text@ != seq!['s'] && text@ != seq!['d']);
    assert(c == 'a' ==> text@ != seq!['w'] && text@ != seq!['s'] && text@ != seq!['d']);
    assert(c == 's' ==> text@ != seq!['w'] && text@ != seq!['a'] && text@ != seq!['d']);
    assert(c == 'd' ==> text@ != seq!['w'] && text@ != seq!['a'] && text@ != seq!['s']);
}

/// The keys held and the camera movement they have asked for so far.
///
/// The movement is counted in steps of one key press per update along each
/// axis: `x` grows to the right, `y` grows upward.
#[derive(Debug)]
pub struct InputState {
    pub keystate: [bool; 4],
    steps_x: i64,
    steps_y: i64,
}

/// Whether a direction's key is held in a key state.
pub open spec fn held(keystate: [bool; 4], dir: DirectionKey) -> bool {
    keystate@[slot(dir) as int]
}

/// `1` when `b` holds, else `0`.
pub open spec fn count(b: bool) -> int {
    if b {
        1
    } else {
        0
    }
}

impl InputState {
    /// The key state: which direction keys are held, by slot.
    pub closed spec fn keys(&self) -> [bool; 4] {
        self.keystate
    }

    /// The movement asked for so far, as `(x, y)` steps.
    pub closed spec fn movement(&self) -> (int, int) {
        (self.steps_x as int, self.steps_y as int)
    }

    /// No key held and no movement.
    pub fn new() -> (state: Self)
        ensures
            state.keys()@ == seq![false, false, false, false],
            state.movement() == (0int, 0int),
    {
        InputState { keystate: [false, false, false, false], steps_x: 0, steps_y: 0 }
    }

    /// Adds one step for every held direction key: up and right count
    /// positive, down and left negative. The keys stay as they are.
    pub fn move_camera(&mut self)
        requires
            i64::MIN < old(self).movement().0 < i64::MAX,
            i64::MIN < old(self).movement().1 < i64::MAX,
        ensures
            final(self).keys() == old(self).keys(),
            final(self).movement() == (
                old(self).movement().0 + count(held(old(self).keys(), DirectionKey::Right))
                    - count(held(old(self).keys(), DirectionKey::Left)),
                old(self).movement().1 + count(held(old(self).keys(), DirectionKey::Up))
                    - count(held(old(self).keys(), DirectionKey::Down)),
            ),
    {
        let mut x: i64 = self.steps_x;
        let mut y: i64 = self.steps_y;
        if self.keystate[DirectionKey::Up.index()] {
            y = y + 1;
        }
        if self.keystate[DirectionKey::Down.index()] {
            y = y - 1;
        }
        if self.keystate[DirectionKey::Left.index()] {
            x = x - 1;
        }
        if self.keystate[DirectionKey::Right.index()] {
            x = x + 1;
        }
        self.steps_x = x;
        self.steps_y = y;
    }

    /// Holds or releases the key of a direction; the other keys and the
    /// movement stay as they are.
    pub fn set_key(&mut self, dir: DirectionKey, pressed: bool)
        ensures
            final(self).keys()@ == old(self).keys()@.update(slot(dir) as int, pressed),
            final(self).movement() == old(self).movement(),
        no_unwind
    {
        self.keystate[dir.index()] = pressed;
    }

    /// Whether any direction key is held.
    pub fn any_movement(&self) -> (any: bool)
        ensures
            any == exists|i: int| 0 <= i < 4 && #[trigger] self.keys()@[i],
    {
        let any = self.keystate[0] || self.keystate[1] || self.keystate[2] || self.keystate[3];
        proof {
            assert(any == (self.keys()@[0] || self.keys()@[1] || self.keys()@[2] || self.keys()@[3]));
            if !any {
                assert forall|i: int| 0 <= i < 4 implies !#[trigger] self.keys()@[i] by {}
            }
        }
        any
    }

    /// The movement asked for so far, as `(x, y)` steps.
    pub fn pos(&self) -> (steps: (i64, i64))
        ensures
            steps.0 == self.movement().0,
            steps.1 == self.movement().1,
    {
        (self.steps_x, self.steps_y)
    }

    /// Releases every key and forgets the movement.
    pub fn clear(&mut self)
        ensures
            final(self).keys()@ == seq![false, false, false, false],
            final(self).movement() == (0int, 0int),
    {
        self.keystate = [false, false, false, false];
        self.steps_x = 0;
        self.steps_y = 0;
    }
}

impl Default for InputState {
    fn default() -> (state: Self)
        ensures
            state.keys()@ == seq![false, false, false, false],
            state.movement() == (0int, 0int),
    {
        InputState::new()
    }
}

} // verus!
