use vstd::prelude::*;

use crate::config::{CURSOR_PERIOD, FRAME_DELAY_MS, H_RES, SPRITE_SIZE};
use crate::frame::{advance_cursor, next_cursor};
use crate::status::Status;

verus! {

/// Where the panel bring-up and the frame loop stand.
#[derive(Debug, Clone, Copy, PartialEq, Eq, Structural)]
pub enum Phase {
    /// The panel is being created from its configuration.
    Creating,
    /// The panel exists and is being reset.
    Resetting,
    /// The panel was reset and is being initialised.
    Initializing,
    /// The panel is ready; the backlight is being switched on.
    EnablingBacklight,
    /// Frame loop: the framebuffer is being acquired.
    Acquiring,
    /// Frame loop: the acquired framebuffer is being painted.
    Filling,
    /// Frame loop: the sprite is being drawn at the cursor.
    Drawing,
    /// Frame loop: the pause between two frames.
    Waiting,
    /// The panel handle is being released.
    Releasing,
    /// Nothing is left to do; no panel handle is held.
    Finished,
    /// The backlight could not be set up; the whole routine fails with this code.
    Aborted(i32),
}

/// The next call that the driver side must make, whose outcome is then
/// reported back with [`PanelController::complete`].
#[derive(Debug, Clone, Copy, PartialEq, Eq, Structural)]
pub enum Action {
    CreatePanel,
    ResetPanel,
    InitPanel,
    EnableBacklight,
    AcquireFramebuffer,
    FillFramebuffer,
    /// Draw the sprite into the window from `(x0, y0)` up to `(x1, y1)`, exclusive.
    DrawSprite { x0: u32, y0: u32, x1: u32, y1: u32 },
    Delay { ms: u32 },
    ReleasePanel,
    /// Return normally.
    Finish,
    /// Fail with the driver code of the backlight setup.
    Abort { code: i32 },
}

/// The state of a [`PanelController`] as plain values.
#[derive(Debug, Clone, Copy, PartialEq, Eq, Structural)]
pub struct ControllerState {
    pub phase: Phase,
    /// Left edge of the sprite.
    pub cursor: u32,
    /// Whether a panel handle is held (the handle is non-null).
    pub panel_live: bool,
}

impl ControllerState {
    /// A state that the controller can be in.
    pub open spec fn wf(self) -> bool {
        &&& self.cursor < CURSOR_PERIOD
        &&& match self.phase {
            Phase::Creating => !self.panel_live,
            Phase::Finished => !self.panel_live,
            Phase::Aborted(_) => true,
            _ => self.panel_live,
        }
    }

    /// Whether the phase belongs to the frame loop.
    pub open spec fn in_frame_loop(self) -> bool {
        match self.phase {
            Phase::Acquiring | Phase::Filling | Phase::Drawing | Phase::Waiting => true,
            _ => false,
        }
    }
}

/// The state before anything was done.
pub open spec fn initial_state() -> ControllerState {
    ControllerState { phase: Phase::Creating, cursor: 0, panel_live: false }
}

/// The state that follows `s` once the pending action has completed with
/// `outcome`. Panel failures skip forward to teardown, a framebuffer failure
/// skips the fill only, a draw failure ends the loop, a backlight failure
/// aborts, and teardown releases the handle only when one is held.
pub open spec fn next_state(s: ControllerState, outcome: Status) -> ControllerState {
    let ok = outcome == Status::Success;
    match s.phase {
        Phase::Creating => if ok {
            ControllerState { phase: Phase::Resetting, panel_live: true, ..s }
        } else {
            ControllerState { phase: Phase::Finished, panel_live: false, ..s }
        },
        Phase::Resetting => if ok {
            ControllerState { phase: Phase::Initializing, ..s }
        } else {
            ControllerState { phase: Phase::Releasing, ..s }
        },
        Phase::Initializing => if ok {
            ControllerState { phase: Phase::EnablingBacklight, ..s }
        } else {
            ControllerState { phase: Phase::Releasing, ..s }
        },
        Phase::EnablingBacklight => match outcome {
            Status::Success => ControllerState { phase: Phase::Acquiring, cursor: 0, ..s },
            Status::DriverError(code) => ControllerState { phase: Phase::Aborted(code), ..s },
        },
        Phase::Acquiring => if ok {
            ControllerState { phase: Phase::Filling, ..s }
        } else {
            ControllerState { phase: Phase::Drawing, ..s }
        },
        Phase::Filling => ControllerState { phase: Phase::Drawing, ..s },
        Phase::Drawing => if ok {
            ControllerState { phase: Phase::Waiting, ..s }
        } else {
            ControllerState { phase: Phase::Releasing, ..s }
        },
        Phase::Waiting => ControllerState {
            phase: Phase::Acquiring,
            cursor: next_cursor(s.cursor as int) as u32,
            ..s
        },
        Phase::Releasing => ControllerState { phase: Phase::Finished, panel_live: false, ..s },
        Phase::Finished => s,
        Phase::Aborted(_) => s,
    }
}

/// The call that state `s` asks for.
pub open spec fn action_of(s: ControllerState) -> Action {
    match s.phase {
        Phase::Creating => Action::CreatePanel,
        Phase::Resetting => Action::ResetPanel,
        Phase::Initializing => Action::InitPanel,
        Phase::EnablingBacklight => Action::EnableBacklight,
        Phase::Acquiring => Action::AcquireFramebuffer,
        Phase::Filling => Action::FillFramebuffer,
        Phase::Drawing => Action::DrawSprite {
            x0: s.cursor,
            y0: 0,
            x1: (s.cursor + SPRITE_SIZE) as u32,
            y1: SPRITE_SIZE,
        },
        Phase::Waiting => Action::Delay { ms: FRAME_DELAY_MS },
        Phase::Releasing => Action::ReleasePanel,
        Phase::Finished => Action::Finish,
        Phase::Aborted(code) => Action::Abort { code },
    }
}

/// `next_state` keeps a state well formed.
pub proof fn lemma_next_state_wf(s: ControllerState, outcome: Status)
    requires
        s.wf(),
    ensures
        next_state(s, outcome).wf(),
{
}

/// Drives the panel bring-up and the frame loop: it says which driver call
/// comes next and decides, from each call's outcome, what follows.
pub struct PanelController {
    phase: Phase,
    cursor: u32,
    panel_live: bool,
}

impl View for PanelController {
    type V = ControllerState;

    closed spec fn view(&self) -> ControllerState {
        ControllerState { phase: self.phase, cursor: self.cursor, panel_live: self.panel_live }
    }
}

impl PanelController {
    #[verifier::type_invariant]
    spec fn inv(self) -> bool {
        self@.wf()
    }

    /// A controller that has done nothing yet: its first action creates the panel.
    pub fn new() -> (r: PanelController)
        ensures
            r@ == initial_state(),
    {
        PanelController { phase: Phase::Creating, cursor: 0, panel_live: false }
    }

    /// The state as plain values.
    pub fn state(&self) -> (r: ControllerState)
        ensures
            r == self@,
            r.wf(),
    {
        proof {
            use_type_invariant(self);
        }
        ControllerState { phase: self.phase, cursor: self.cursor, panel_live: self.panel_live }
    }

    /// The driver call that is pending.
    pub fn next_action(&self) -> (r: Action)
        ensures
            r == action_of(self@),
    {
        proof {
            use_type_invariant(self);
        }
        match self.phase {
            Phase::Creating => Action::CreatePanel,
            Phase::Resetting => Action::ResetPanel,
            Phase::Initializing => Action::InitPanel,
            Phase::EnablingBacklight => Action::EnableBacklight,
            Phase::Acquiring => Action::AcquireFramebuffer,
            Phase::Filling => Action::FillFramebuffer,
            Phase::Drawing => Action::DrawSprite {
                x0: self.cursor,
                y0: 0,
                x1: self.cursor + SPRITE_SIZE,
                y1: SPRITE_SIZE,
            },
            Phase::Waiting => Action::Delay { ms: FRAME_DELAY_MS },
            Phase::Releasing => Action::ReleasePanel,
            Phase::Finished => Action::Finish,
            Phase::Aborted(code) => Action::Abort { code },
        }
    }

    /// Reports the outcome of the pending call and returns the call that
    /// comes next.
    pub fn complete(&mut self, outcome: Status) -> (r: Action)
        ensures
            final(self)@ == next_state(old(self)@, outcome),
            r == action_of(final(self)@),
    {
        proof {
            use_type_invariant(&*self);
        }
        let ok = outcome.is_ok();
        let cursor = self.cursor;
        let live = self.panel_live;
        let (phase, cursor, panel_live) = match self.phase {
            Phase::Creating => if ok {
                (Phase::Resetting, cursor, true)
            } else {
                (Phase::Finished, cursor, false)
            },
            Phase::Resetting => if ok {
                (Phase::Initializing, cursor, live)
            } else {
                (Phase::Releasing, cursor, live)
            },
            Phase::Initializing => if ok {
                (Phase::EnablingBacklight, cursor, live)
            } else {
                (Phase::Releasing, cursor, live)
            },
            Phase::EnablingBacklight => match outcome {
                Status::Success => (Phase::Acquiring, 0, live),
                Status::DriverError(code) => (Phase::Aborted(code), cursor, live),
            },
            Phase::Acquiring => if ok {
                (Phase::Filling, cursor, live)
            } else {
                (Phase::Drawing, cursor, live)
            },
            Phase::Filling => (Phase::Drawing, cursor, live),
            Phase::Drawing => if ok {
                (Phase::Waiting, cursor, live)
            } else {
                (Phase::Releasing, cursor, live)
            },
            Phase::Waiting => (Phase::Acquiring, advance_cursor(cursor), live),
            Phase::Releasing => (Phase::Finished, cursor, false),
            Phase::Finished => (Phase::Finished, cursor, live),
            Phase::Aborted(code) => (Phase::Aborted(code), cursor, live),
        };
        *self = PanelController { phase, cursor, panel_live };
        self.next_action()
    }
}

} // verus!
