//! The bookkeeping of the render loop that does not touch the GPU: the
//! frame counter and parity that choose which volume texture is read and
//! written, the camera steering taken from held keys, the compute dispatch
//! size, and the reactions to window and surface events.

use vstd::prelude::*;

verus! {

use crate::uniforms::{
    count, held, logical_direction, physical_direction, slot, DirectionKey, InputState, KeyCode,
    LogicalKey, PhysicalKey,
};

/// Edge length, in texels, of the cubic volume texture.
pub const TEX_SIZE: u32 = 32;

/// Edge length, in invocations, of one compute workgroup.
pub const WORKGROUP_SIZE: u32 = 4;

/// One of the two bind groups of a pass.
#[derive(Debug, Clone, Copy, PartialEq, Eq, Structural)]
pub enum Side {
    Front,
    Back,
}

/// One of the two volume textures.
#[derive(Debug, Clone, Copy, PartialEq, Eq, Structural)]
pub enum Volume {
    A,
    B,
}

/// The volume that the compute pass of a bind group reads.
pub open spec fn compute_reads(side: Side) -> Volume {
    match side {
        Side::Front => Volume::A,
        Side::Back => Volume::B,
    }
}

/// The volume that the compute pass of a bind group writes.
pub open spec fn compute_writes(side: Side) -> Volume {
    match side {
        Side::Front => Volume::B,
        Side::Back => Volume::A,
    }
}

/// The volume that the render pass of a bind group samples.
pub open spec fn render_reads(side: Side) -> Volume {
    match side {
        Side::Front => Volume::A,
        Side::Back => Volume::B,
    }
}

/// The compute bind group used in a frame of the given parity.
pub open spec fn compute_side_for(parity: bool) -> Side {
    if parity {
        Side::Front
    } else {
        Side::Back
    }
}

/// The render bind group used in a frame of the given parity.
pub open spec fn render_side_for(parity: bool) -> Side {
    if parity {
        Side::Back
    } else {
        Side::Front
    }
}

impl Side {
    /// The volumes that this side's compute bind group wires up, as
    /// `(read, written)`: the front group reads A and writes B, the back
    /// group reads B and writes A.
    pub fn compute_volumes(self) -> (volumes: (Volume, Volume))
        ensures
            volumes.0 == compute_reads(self),
            volumes.1 == compute_writes(self),
    {
        match self {
            Side::Front => (Volume::A, Volume::B),
            Side::Back => (Volume::B, Volume::A),
        }
    }

    /// The volume that this side's render bind group samples: A for the
    /// front group, B for the back group.
    pub fn render_volume(self) -> (volume: Volume)
        ensures
            volume == render_reads(self),
    {
        match self {
            Side::Front => Volume::A,
            Side::Back => Volume::B,
        }
    }
}

/// In every frame the render pass samples the volume that the compute pass
/// of the same frame wrote, and the compute pass of the next frame reads
/// it again: the two volumes are used alternately.
pub proof fn lemma_volumes_alternate(parity: bool)
    ensures
        render_reads(render_side_for(parity)) == compute_writes(compute_side_for(parity)),
        compute_reads(compute_side_for(!parity)) == compute_writes(compute_side_for(parity)),
        compute_reads(compute_side_for(parity)) != compute_writes(compute_side_for(parity)),
        compute_side_for(false) == Side::Back && render_side_for(false) == Side::Front,
        compute_side_for(true) == Side::Front && render_side_for(true) == Side::Back,
{
}

/// The steps that a key state asks the camera to move by, as `(x, y)`.
pub open spec fn key_steps(keys: [bool; 4]) -> (int, int) {
    (
        count(held(keys, DirectionKey::Right)) - count(held(keys, DirectionKey::Left)),
        count(held(keys, DirectionKey::Up)) - count(held(keys, DirectionKey::Down)),
    )
}

/// Each held direction key moves the camera one step along its own axis:
/// right (slot 3) adds one to x and left (slot 1) takes one away, up
/// (slot 0) adds one to y and down (slot 2) takes one away; a key that is
/// not held adds nothing. So a lone held key gives a unit step its way and
/// opposite keys cancel.
pub proof fn lemma_key_steps_follow_held_keys(keys: [bool; 4])
    ensures
        key_steps(keys).0 == (if keys@[3] {
            1int
        } else {
            0int
        }) - (if keys@[1] {
            1int
        } else {
            0int
        }),
        key_steps(keys).1 == (if keys@[0] {
            1int
        } else {
            0int
        }) - (if keys@[2] {
            1int
        } else {
            0int
        }),
        keys@ == seq![false, true, false, false] ==> key_steps(keys) == (-1int, 0int),
        keys@ == seq![false, false, false, true] ==> key_steps(keys) == (1int, 0int),
        keys@ == seq![true, false, false, false] ==> key_steps(keys) == (0int, 1int),
        keys@ == seq![false, false, true, false] ==> key_steps(keys) == (0int, -1int),
{
}

/// Whether any direction key is held in a key state.
pub open spec fn any_held(keys: [bool; 4]) -> bool {
    exists|i: int| 0 <= i < 4 && #[trigger] keys@[i]
}

/// The input and temporal state of the render loop: the keys held, the
/// number of frames drawn and the parity that picks the bind groups.
#[derive(Debug)]
pub struct TemporalState {
    input_state: InputState,
    frame: u32,
    parity: bool,
}

impl TemporalState {
    /// Between frames no movement is pending: every step asked for has
    /// been handed to the camera.
    #[verifier::type_invariant]
    spec fn no_pending_movement(self) -> bool {
        self.input_state.movement() == (0int, 0int)
    }

    /// The keys held.
    pub closed spec fn keys(&self) -> [bool; 4] {
        self.input_state.keys()
    }

    /// The number of frames drawn since the start or the last reset.
    pub closed spec fn frame_spec(&self) -> u32 {
        self.frame
    }

    /// The parity of the current frame.
    pub closed spec fn parity_spec(&self) -> bool {
        self.parity
    }

    /// No key held, no frame drawn, even parity.
    pub fn new() -> (state: Self)
        ensures
            state.keys()@ == seq![false, false, false, false],
            state.frame_spec() == 0,
            state.parity_spec() == false,
    {
        TemporalState { input_state: InputState::new(), frame: 0, parity: false }
    }

    /// The number of frames drawn.
    pub fn frame(&self) -> (frame: u32)
        ensures
            frame == self.frame_spec(),
    {
        self.frame
    }

    /// The parity of the current frame.
    pub fn parity(&self) -> (parity: bool)
        ensures
            parity == self.parity_spec(),
    {
        self.parity
    }

    /// The bind group of the compute pass in this frame.
    pub fn compute_side(&self) -> (side: Side)
        ensures
            side == compute_side_for(self.parity_spec()),
    {
        if self.parity {
            Side::Front
        } else {
            Side::Back
        }
    }

    /// The bind group of the render pass in this frame.
    pub fn render_side(&self) -> (side: Side)
        ensures
            side == render_side_for(self.parity_spec()),
    {
        if self.parity {
            Side::Back
        } else {
            Side::Front
        }
    }

    /// A key typed as text was pressed or released: a direction key is
    /// held or released accordingly; any other key changes nothing.
    pub fn on_logical_key(&mut self, key: LogicalKey, pressed: bool)
        ensures
            final(self).frame_spec() == old(self).frame_spec(),
            final(self).parity_spec() == old(self).parity_spec(),
            final(self).keys()@ == match logical_direction(key) {
                Some(dir) => old(self).keys()@.update(slot(dir) as int, pressed),
                None => old(self).keys()@,
            },
    {
        proof {
            use_type_invariant(&*self);
        }
        if let Some(dir) = DirectionKey::from_logical_key(key) {
            self.input_state.set_key(dir, pressed);
        }
    }

    /// A physical key was pressed or released. The R key restarts the
    /// frame count at 0 with even parity; a direction key is held or
    /// released accordingly; any other key changes nothing.
    pub fn on_physical_key(&mut self, key: PhysicalKey, pressed: bool)
        ensures
            key == PhysicalKey::Code(KeyCode::KeyR) ==> {
                &&& final(self).frame_spec() == 0
                &&& final(self).parity_spec() == false
                &&& final(self).keys() == old(self).keys()
            },
            key != PhysicalKey::Code(KeyCode::KeyR) ==> {
                &&& final(self).frame_spec() == old(self).frame_spec()
                &&& final(self).parity_spec() == old(self).parity_spec()
                &&& final(self).keys()@ == match physical_direction(key) {
                    Some(dir) => old(self).keys()@.update(slot(dir) as int, pressed),
                    None => old(self).keys()@,
                }
            },
    {
        proof {
            use_type_invariant(&*self);
        }
        if key == PhysicalKey::Code(KeyCode::KeyR) {
            self.frame = 0;
            self.parity = false;
        } else if let Some(dir) = DirectionKey::from_physical_key(key) {
            self.input_state.set_key(dir, pressed);
        }
    }

    /// The camera steering of one update: the held keys are turned into a
    /// movement; if any key is held, that movement is returned for the
    /// camera and every key counts as released afterwards. Otherwise
    /// nothing is returned and the keys stay as they are.
    pub fn take_movement(&mut self) -> (movement: Option<(i64, i64)>)
        ensures
            final(self).frame_spec() == old(self).frame_spec(),
            final(self).parity_spec() == old(self).parity_spec(),
            any_held(old(self).keys()) ==> {
                &&& movement matches Some(m) && m.0 == key_steps(old(self).keys()).0 && m.1
                    == key_steps(old(self).keys()).1
                &&& movement matches Some(m) && m.0 == (if old(self).keys()@[3] {
                    1int
                } else {
                    0int
                }) - (if old(self).keys()@[1] {
                    1int
                } else {
                    0int
                }) && m.1 == (if old(self).keys()@[0] {
                    1int
                } else {
                    0int
                }) - (if old(self).keys()@[2] {
                    1int
                } else {
                    0int
                })
                &&& final(self).keys()@ == seq![false, false, false, false]
            },
            !any_held(old(self).keys()) ==> {
                &&& movement is None
                &&& final(self).keys() == old(self).keys()
            },
    {
        proof {
            use_type_invariant(&*self);
        }
        let mut input = InputState::new();
        std::mem::swap(&mut input, &mut self.input_state);
        input.move_camera();
        let movement = if input.any_movement() {
            let steps = input.pos();
            input.clear();
            Some(steps)
        } else {
            None
        };
        self.input_state = input;
        movement
    }

    /// Moves on to the next frame: one more frame drawn, parity flipped.
    pub fn advance(&mut self)
        requires
            old(self).frame_spec() < u32::MAX,
        ensures
            final(self).frame_spec() == old(self).frame_spec() + 1,
            final(self).parity_spec() == !old(self).parity_spec(),
            final(self).keys() == old(self).keys(),
    {
        proof {
            use_type_invariant(&*self);
        }
        self.frame = self.frame + 1;
        self.parity = !self.parity;
    }
}

/// The number of workgroups that cover `extent` invocations along one
/// axis: `extent` divided by the workgroup size, rounded up.
pub fn workgroup_count(extent: u32) -> (groups: u32)
    ensures
        groups * WORKGROUP_SIZE >= extent,
        groups * WORKGROUP_SIZE < extent + WORKGROUP_SIZE,
{
    let whole = extent / WORKGROUP_SIZE;
    if extent % WORKGROUP_SIZE == 0 {
        whole
    } else {
        whole + 1
    }
}

/// Whether a new window size is taken over: only when both sides are
/// non-zero.
pub fn accepts_size(width: u32, height: u32) -> (accepted: bool)
    ensures
        accepted == (width > 0 && height > 0),
{
    width > 0 && height > 0
}

/// Why the next surface texture could not be acquired.
#[derive(Debug, Clone, Copy, PartialEq, Eq, Structural)]
pub enum SurfaceFault {
    Timeout,
    Outdated,
    Lost,
    OutOfMemory,
    Other,
}

/// What the render loop does about a surface fault.
#[derive(Debug, Clone, Copy, PartialEq, Eq, Structural)]
pub enum Recovery {
    /// Leave the event loop and stop.
    Exit,
    /// Configure the surface again at the current size.
    Reconfigure,
    /// Report the fault and go on with the next frame.
    Report,
}

/// The reaction to a surface fault: running out of memory ends the
/// program, a lost surface is configured again, anything else is reported.
pub fn recovery(fault: SurfaceFault) -> (r: Recovery)
    ensures
        r == match fault {
            SurfaceFault::OutOfMemory => Recovery::Exit,
            SurfaceFault::Lost => Recovery::Reconfigure,
            _ => Recovery::Report,
        },
{
    match fault {
        SurfaceFault::OutOfMemory => Recovery::Exit,
        SurfaceFault::Lost => Recovery::Reconfigure,
        _ => Recovery::Report,
    }
}

} // verus!
