use vstd::prelude::*;

use crate::input::{after_key_down, after_key_up, Joystick, Key};

verus! {

/// Lifecycle of the backend loop.
#[derive(Clone, Copy, Debug, PartialEq, Eq, Structural)]
pub enum Phase {
    Initialized,
    Running,
    Stopped,
}

/// Where a running loop stands within the current tick.
#[derive(Clone, Copy, Debug, PartialEq, Eq, Structural)]
pub enum Stage {
    Polling,
    Updating,
    Rendering,
}

/// A platform event as seen by the loop.
#[derive(Clone, Copy, Debug, PartialEq, Eq, Structural)]
pub enum PlatformEvent {
    Quit,
    KeyDown(Key),
    KeyUp(Key),
    Other,
}

/// Decision state of the backend loop: lifecycle, tick stage, the keyboard
/// joystick folded from key events, and whether a quit has been asked for.
#[derive(Clone, Copy, Debug, PartialEq, Eq, Structural)]
pub struct Runtime {
    pub width: u32,
    pub height: u32,
    pub phase: Phase,
    pub stage: Stage,
    pub keyboard: Joystick,
    pub quit_requested: bool,
}

/// Whether an event asks the loop to stop: an explicit quit, or Escape released.
pub open spec fn is_quit_event(e: PlatformEvent) -> bool {
    e == PlatformEvent::Quit || e == PlatformEvent::KeyUp(Key::Escape)
}

pub open spec fn polling(s: Runtime) -> bool {
    s.phase == Phase::Running && s.stage == Stage::Polling
}

/// The state after `e` is folded in; events are taken only while polling.
pub open spec fn after_event(s: Runtime, e: PlatformEvent) -> Runtime {
    if !polling(s) {
        s
    } else {
        match e {
            PlatformEvent::Quit => Runtime { quit_requested: true, ..s },
            PlatformEvent::KeyDown(k) => Runtime { keyboard: after_key_down(s.keyboard, k), ..s },
            PlatformEvent::KeyUp(k) => Runtime {
                keyboard: after_key_up(s.keyboard, k),
                quit_requested: s.quit_requested || k == Key::Escape,
                ..s
            },
            PlatformEvent::Other => s,
        }
    }
}

/// The state after the update step is entered, if polling.
pub open spec fn after_begin_update(s: Runtime) -> Runtime {
    if polling(s) {
        Runtime { stage: Stage::Updating, ..s }
    } else {
        s
    }
}

/// The state after the render step is entered, if the update step ran.
pub open spec fn after_begin_render(s: Runtime) -> Runtime {
    if s.phase == Phase::Running && s.stage == Stage::Updating {
        Runtime { stage: Stage::Rendering, ..s }
    } else {
        s
    }
}

/// The state after the tick ends: a quit seen during the tick stops the loop,
/// otherwise the next tick starts polling.
pub open spec fn after_end_tick(s: Runtime) -> Runtime {
    if s.phase == Phase::Running && s.stage == Stage::Rendering {
        if s.quit_requested {
            Runtime { phase: Phase::Stopped, stage: Stage::Polling, ..s }
        } else {
            Runtime { stage: Stage::Polling, ..s }
        }
    } else {
        s
    }
}

impl Runtime {
    /// A loop for a window of the given size, not yet started.
    pub fn new(width: u32, height: u32) -> (r: Runtime)
        ensures
            r.width == width,
            r.height == height,
            r.phase == Phase::Initialized,
            r.stage == Stage::Polling,
            r.keyboard.is_rest(),
            !r.quit_requested,
    {
        Runtime {
            width,
            height,
            phase: Phase::Initialized,
            stage: Stage::Polling,
            keyboard: Joystick::default(),
            quit_requested: false,
        }
    }

    /// Starts the loop; returns whether it was waiting to start.
    pub fn start(&mut self) -> (started: bool)
        ensures
            started == (old(self).phase == Phase::Initialized),
            *final(self) == (if started {
                Runtime { phase: Phase::Running, stage: Stage::Polling, ..*old(self) }
            } else {
                *old(self)
            }),
    {
        if self.phase == Phase::Initialized {
            self.phase = Phase::Running;
            self.stage = Stage::Polling;
            true
        } else {
            false
        }
    }

    /// Folds one polled platform event into the loop state. A quit request is
    /// recorded and takes effect only when the tick ends.
    pub fn handle_event(&mut self, e: PlatformEvent)
        ensures
            *final(self) == after_event(*old(self), e),
    {
        if self.phase == Phase::Running && self.stage == Stage::Polling {
            match e {
                PlatformEvent::Quit => {
                    self.quit_requested = true;
                },
                PlatformEvent::KeyDown(k) => {
                    self.keyboard.key_down(k);
                },
                PlatformEvent::KeyUp(k) => {
                    self.keyboard.key_up(k);
                    if k == Key::Escape {
                        self.quit_requested = true;
                    }
                },
                PlatformEvent::Other => {},
            }
        }
    }

    /// Asks the loop to stop at the end of the current tick.
    pub fn quit(&mut self)
        ensures
            *final(self) == (Runtime { quit_requested: true, ..*old(self) }),
    {
        self.quit_requested = true;
    }

    /// Ends polling and enters the update step; returns whether the loop was polling.
    pub fn begin_update(&mut self) -> (entered: bool)
        ensures
            entered == polling(*old(self)),
            *final(self) == after_begin_update(*old(self)),
    {
        if self.phase == Phase::Running && self.stage == Stage::Polling {
            self.stage = Stage::Updating;
            true
        } else {
            false
        }
    }

    /// Enters the render step; returns whether the update step had run.
    pub fn begin_render(&mut self) -> (entered: bool)
        ensures
            entered == (old(self).phase == Phase::Running && old(self).stage == Stage::Updating),
            *final(self) == after_begin_render(*old(self)),
    {
        if self.phase == Phase::Running && self.stage == Stage::Updating {
            self.stage = Stage::Rendering;
            true
        } else {
            false
        }
    }

    /// Ends the tick after rendering; returns whether the loop goes on.
    pub fn end_tick(&mut self) -> (continuing: bool)
        ensures
            *final(self) == after_end_tick(*old(self)),
            continuing == (final(self).phase == Phase::Running),
    {
        if self.phase == Phase::Running && self.stage == Stage::Rendering {
            self.stage = Stage::Polling;
            if self.quit_requested {
                self.phase = Phase::Stopped;
            }
        }
        self.phase == Phase::Running
    }

    /// Whether the loop has stopped.
    pub fn is_stopped(&self) -> (r: bool)
        ensures
            r == (self.phase == Phase::Stopped),
    {
        self.phase == Phase::Stopped
    }
}

/// Frame time in whole milliseconds from a duration's seconds and sub-second
/// milliseconds, saturating at the largest `u64`; never negative.
pub fn delta_millis(secs: u64, subsec_millis: u32) -> (r: u64)
    requires
        subsec_millis < 1000,
    ensures
        r == (if secs * 1000 + subsec_millis <= u64::MAX {
            (secs * 1000 + subsec_millis) as u64
        } else {
            u64::MAX
        }),
{
    if secs > (u64::MAX - subsec_millis as u64) / 1000 {
        u64::MAX
    } else {
        secs * 1000 + subsec_millis as u64
    }
}

/// Within a running tick the update step comes first and the render step
/// exactly once after it; with no quit request the loop then polls again.
pub proof fn lemma_tick_order(s: Runtime)
    requires
        polling(s),
        !s.quit_requested,
    ensures
        after_begin_render(s) == s,
        after_begin_update(s).stage == Stage::Updating,
        after_begin_render(after_begin_update(s)).stage == Stage::Rendering,
        after_begin_render(after_begin_render(after_begin_update(s)))
            == after_begin_render(after_begin_update(s)),
        after_begin_update(after_begin_render(after_begin_update(s)))
            == after_begin_render(after_begin_update(s)),
        after_end_tick(after_begin_render(after_begin_update(s))) == s,
{
}

/// A quit event leaves the current tick running through update and render,
/// and the loop stops when that tick ends.
pub proof fn lemma_quit_stops_at_tick_end(s: Runtime, e: PlatformEvent)
    requires
        polling(s),
        is_quit_event(e),
    ensures
        after_event(s, e).phase == Phase::Running,
        after_begin_update(after_event(s, e)).phase == Phase::Running,
        after_begin_update(after_event(s, e)).stage == Stage::Updating,
        after_begin_render(after_begin_update(after_event(s, e))).phase == Phase::Running,
        after_begin_render(after_begin_update(after_event(s, e))).stage == Stage::Rendering,
        after_end_tick(after_begin_render(after_begin_update(after_event(s, e)))).phase
            == Phase::Stopped,
{
}

/// A stopped loop takes no further step.
pub proof fn lemma_stopped_is_final(s: Runtime, e: PlatformEvent)
    requires
        s.phase == Phase::Stopped,
    ensures
        after_event(s, e) == s,
        after_begin_update(s) == s,
        after_begin_render(s) == s,
        after_end_tick(s) == s,
{
}

} // verus!
