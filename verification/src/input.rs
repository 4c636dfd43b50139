//! Keyboard and mouse handling for the demos' frame loops.
//!
//! Each frame the loop hands the events it drained from the window system to
//! [`Io::process_io`].  The processing remembers which movement keys are held
//! down and answers with the list of camera commands that this frame asks
//! for: one command per mouse motion or wheel event, in event order, then one
//! command per held key, in a fixed order.

use vstd::prelude::*;

use crate::system;
use crate::system::IoEvents;
use crate::utils::BitFields;

verus! {

/// Flag bit: the up arrow key is held.
pub const KEY_UP: u16 = 0b_0000_0000_0000_0001;

/// Flag bit: the down arrow key is held.
pub const KEY_DOWN: u16 = 0b_0000_0000_0000_0010;

/// Flag bit: the left arrow key is held.
pub const KEY_LEFT: u16 = 0b_0000_0000_0000_0100;

/// Flag bit: the right arrow key is held.
pub const KEY_RIGHT: u16 = 0b_0000_0000_0000_1000;

/// Flag bit: the page-up key is held.
pub const KEY_PGUP: u16 = 0b_0000_0000_0001_0000;

/// Flag bit: the page-down key is held.
pub const KEY_PGDOWN: u16 = 0b_0000_0000_0010_0000;

/// Flag bit: the home key is held.
pub const KEY_HOME: u16 = 0b_0000_0000_0100_0000;

/// Flag bit: the end key is held.
pub const KEY_END: u16 = 0b_0000_0000_1000_0000;

/// Flag bit: the insert key is held.
pub const KEY_INS: u16 = 0b_0000_0001_0000_0000;

/// Flag bit: the delete key is held.
pub const KEY_DEL: u16 = 0b_0000_0010_0000_0000;

/// A direction the camera can be moved in, one step at a time.
#[derive(Clone, Copy, Debug, PartialEq, Eq)]
pub enum CamMovement {
    Forward,
    Backward,
    Left,
    Right,
    Up,
    Down,
}

/// One camera update that a frame asks for.  The caller applies each command
/// with its own speeds and time step.
#[derive(Clone, Copy, Debug, PartialEq, Eq)]
pub enum CamCommand {
    /// Turn by a mouse movement of (dx, dy) pixels.
    Look(i32, i32),
    /// Zoom by a wheel movement of dy steps.
    Zoom(i32),
    /// Move one step in a direction, for a held movement key.
    Move(CamMovement),
    /// Turn one keyboard step in the direction (dx, dy); each part is -1, 0
    /// or 1.
    LookStep(i32, i32),
}

/// The flag bit that a key code is tracked under; 0 for a key that the
/// demos do not use.
pub open spec fn key_flag(key: i32) -> u16 {
    if key == system::KEY_DOWN {
        KEY_DOWN
    } else if key == system::KEY_UP {
        KEY_UP
    } else if key == system::KEY_LEFT {
        KEY_LEFT
    } else if key == system::KEY_RIGHT {
        KEY_RIGHT
    } else if key == system::KEY_PAGEDOWN {
        KEY_PGDOWN
    } else if key == system::KEY_PAGEUP {
        KEY_PGUP
    } else if key == system::KEY_HOME {
        KEY_HOME
    } else if key == system::KEY_END {
        KEY_END
    } else if key == system::KEY_INSERT {
        KEY_INS
    } else if key == system::KEY_DELETE {
        KEY_DEL
    } else {
        0
    }
}

/// The held-key flags after one event: a key press sets its flag, a key
/// release clears it, and every other event leaves the flags alone.
pub open spec fn flags_after_event(flags: u16, e: IoEvents) -> u16 {
    match e {
        IoEvents::KeyDown(key) => flags | key_flag(key),
        IoEvents::KeyUp(key) => flags & !key_flag(key),
        _ => flags,
    }
}

/// The held-key flags after a whole sequence of events, oldest first.
pub open spec fn flags_after(flags: u16, events: Seq<IoEvents>) -> u16
    decreases events.len(),
{
    if events.len() == 0 {
        flags
    } else {
        flags_after_event(flags_after(flags, events.drop_last()), events.last())
    }
}

/// The camera command that one event asks for directly, if any: mouse
/// motion turns the camera and the wheel zooms it.
pub open spec fn event_command(e: IoEvents) -> Option<CamCommand> {
    match e {
        IoEvents::MouseMotion(_x, _y, dx, dy) => Some(CamCommand::Look(dx, dy)),
        IoEvents::MouseWheel(_dx, dy) => Some(CamCommand::Zoom(dy)),
        _ => None,
    }
}

/// The commands that the events ask for directly, in event order.
pub open spec fn event_commands(events: Seq<IoEvents>) -> Seq<CamCommand>
    decreases events.len(),
{
    if events.len() == 0 {
        Seq::<CamCommand>::empty()
    } else {
        event_commands(events.drop_last()) + (match event_command(events.last()) {
            Some(c) => seq![c],
            None => Seq::<CamCommand>::empty(),
        })
    }
}

/// Whether an event is a mouse-wheel event.
pub open spec fn is_wheel(e: IoEvents) -> bool {
    e matches IoEvents::MouseWheel(_, _)
}

/// Whether any event of the sequence is a mouse-wheel event.
pub open spec fn has_wheel(events: Seq<IoEvents>) -> bool {
    exists|i: int| 0 <= i < events.len() && #[trigger] is_wheel(events[i])
}

/// A singleton command when `cond` holds, else nothing.
pub open spec fn cmd_if(cond: bool, c: CamCommand) -> Seq<CamCommand> {
    if cond {
        seq![c]
    } else {
        Seq::<CamCommand>::empty()
    }
}

/// The commands owed to the keys held at the end of the frame, in the fixed
/// order that the demos apply them.
pub open spec fn flag_commands(flags: u16) -> Seq<CamCommand> {
    cmd_if(flags & KEY_UP != 0, CamCommand::Move(CamMovement::Forward)) + cmd_if(
        flags & KEY_DOWN != 0,
        CamCommand::Move(CamMovement::Backward),
    ) + cmd_if(flags & KEY_LEFT != 0, CamCommand::Move(CamMovement::Left)) + cmd_if(
        flags & KEY_RIGHT != 0,
        CamCommand::Move(CamMovement::Right),
    ) + cmd_if(flags & KEY_PGUP != 0, CamCommand::Move(CamMovement::Up)) + cmd_if(
        flags & KEY_PGDOWN != 0,
        CamCommand::Move(CamMovement::Down),
    ) + cmd_if(flags & KEY_HOME != 0, CamCommand::LookStep(1i32, 0i32)) + cmd_if(
        flags & KEY_END != 0,
        CamCommand::LookStep(-1i32, 0i32),
    ) + cmd_if(flags & KEY_INS != 0, CamCommand::LookStep(0i32, 1i32)) + cmd_if(
        flags & KEY_DEL != 0,
        CamCommand::LookStep(0i32, -1i32),
    )
}

/// Tracks which movement keys are held down across frames.  Its view is the
/// current flag word, one bit per tracked key.
pub struct Io {
    io_flags: BitFields<u16>,
}

impl View for Io {
    type V = u16;

    closed spec fn view(&self) -> u16 {
        self.io_flags@
    }
}

impl Default for Io {
    fn default() -> (r: Self)
        ensures
            r@ == 0u16,
    {
        Io { io_flags: Default::default() }
    }
}

/// The flag bit that a key code is tracked under; 0 for a key that the
/// demos do not use.
fn flag_of_key(key: i32) -> (r: u16)
    ensures
        r == key_flag(key),
{
    if key == system::KEY_DOWN {
        KEY_DOWN
    } else if key == system::KEY_UP {
        KEY_UP
    } else if key == system::KEY_LEFT {
        KEY_LEFT
    } else if key == system::KEY_RIGHT {
        KEY_RIGHT
    } else if key == system::KEY_PAGEDOWN {
        KEY_PGDOWN
    } else if key == system::KEY_PAGEUP {
        KEY_PGUP
    } else if key == system::KEY_HOME {
        KEY_HOME
    } else if key == system::KEY_END {
        KEY_END
    } else if key == system::KEY_INSERT {
        KEY_INS
    } else if key == system::KEY_DELETE {
        KEY_DEL
    } else {
        0
    }
}

/// Appends `c` when `cond` holds.
fn push_if(cmds: &mut Vec<CamCommand>, cond: bool, c: CamCommand)
    ensures
        final(cmds)@ == old(cmds)@ + cmd_if(cond, c),
{
    if cond {
        cmds.push(c);
    }
    proof {
        assert(final(cmds)@ =~= old(cmds)@ + cmd_if(cond, c));
    }
}

impl Io {
    /// The commands owed to the keys held right now, in the fixed order.
    fn held_key_commands(&self) -> (r: Vec<CamCommand>)
        ensures
            r@ == flag_commands(self@),
    {
        let mut cmds: Vec<CamCommand> = Vec::new();
        push_if(&mut cmds, self.io_flags.is_set(KEY_UP), CamCommand::Move(CamMovement::Forward));
        push_if(&mut cmds, self.io_flags.is_set(KEY_DOWN), CamCommand::Move(CamMovement::Backward));
        push_if(&mut cmds, self.io_flags.is_set(KEY_LEFT), CamCommand::Move(CamMovement::Left));
        push_if(&mut cmds, self.io_flags.is_set(KEY_RIGHT), CamCommand::Move(CamMovement::Right));
        push_if(&mut cmds, self.io_flags.is_set(KEY_PGUP), CamCommand::Move(CamMovement::Up));
        push_if(&mut cmds, self.io_flags.is_set(KEY_PGDOWN), CamCommand::Move(CamMovement::Down));
        push_if(&mut cmds, self.io_flags.is_set(KEY_HOME), CamCommand::LookStep(1, 0));
        push_if(&mut cmds, self.io_flags.is_set(KEY_END), CamCommand::LookStep(-1, 0));
        push_if(&mut cmds, self.io_flags.is_set(KEY_INS), CamCommand::LookStep(0, 1));
        push_if(&mut cmds, self.io_flags.is_set(KEY_DEL), CamCommand::LookStep(0, -1));
        cmds
    }

    /// Works through one frame's events: updates the held-key flags and
    /// returns the camera commands of this frame together with whether the
    /// zoom changed (a wheel event was seen).
    pub fn process_io(&mut self, events: &Vec<IoEvents>) -> (r: (Vec<CamCommand>, bool))
        ensures
            final(self)@ == flags_after(old(self)@, events@),
            r.0@ == event_commands(events@) + flag_commands(flags_after(old(self)@, events@)),
            r.1 == has_wheel(events@),
    {
        let mut cmds: Vec<CamCommand> = Vec::new();
        let mut ret = false;
        let n = events.len();
        for i in 0..n
            invariant
                n == events@.len(),
                self@ == flags_after(old(self)@, events@.take(i as int)),
                cmds@ == event_commands(events@.take(i as int)),
                ret == has_wheel(events@.take(i as int)),
        {
            proof {
                assert(events@.take(i + 1).drop_last() =~= events@.take(i as int));
                assert(events@.take(i + 1).last() == events@[i as int]);
            }
            match events[i] {
                IoEvents::MouseMotion(_x, _y, dx, dy) => {
                    cmds.push(CamCommand::Look(dx, dy));
                },
                IoEvents::KeyDown(key) => {
                    let flag = flag_of_key(key);
                    self.io_flags.set(flag);
                },
                IoEvents::KeyUp(key) => {
                    let flag = flag_of_key(key);
                    self.io_flags.unset(flag);
                },
                IoEvents::MouseWheel(_dx, dy) => {
                    cmds.push(CamCommand::Zoom(dy));
                    ret = true;
                    proof {
                        assert(is_wheel(events@.take(i + 1)[i as int]));
                    }
                },
                _ => {},
            }
        }
        proof {
            assert(events@.take(n as int) =~= events@);
        }
        let mut held = self.held_key_commands();
        cmds.append(&mut held);
        (cmds, ret)
    }
}

} // verus!
