//! Decisions of the progress screen's loop: what a key press does, when the
//! spinner moves, and when the failed-packages marker is looked for.
use vstd::prelude::*;
use vstd::arithmetic::div_mod::lemma_add_mod_noop_right;
use crate::events::InstallerEvent;
use crate::model::App;

verus! {

/// How long the loop waits for a key press before it draws again.
pub const INPUT_POLL_MS: u64 = 100;

/// How often the spinner moves on.
pub const SPINNER_TICK_MS: u64 = 120;

/// What the loop does after a key press.
#[derive(Clone, Copy, Debug, PartialEq, Eq, Structural)]
pub enum LoopControl {
    Stay,
    /// Leave the screen; the installation is not stopped.
    Quit,
    /// Leave the screen, then restart the machine.
    Reboot,
    /// Leave the screen, then power the machine off.
    PowerOff,
}

pub open spec fn finished_ok(app: App) -> bool {
    app.done && app.err is None
}

pub open spec fn key_control(app: App, key: char, control: bool) -> LoopControl {
    if (key == 'q' || key == 'Q') && control {
        LoopControl::Quit
    } else if (key == 'r' || key == 'R') && finished_ok(app) {
        LoopControl::Reboot
    } else if (key == 's' || key == 'S') && finished_ok(app) {
        LoopControl::PowerOff
    } else {
        LoopControl::Stay
    }
}

/// Control-Q always leaves; R and S restart or power off the machine, but
/// only once the installation has finished without error.
pub fn key_action(app: &App, key: char, control: bool) -> (r: LoopControl)
    ensures
        r == key_control(*app, key, control),
{
    let ok = app.done && app.err.is_none();
    if (key == 'q' || key == 'Q') && control {
        LoopControl::Quit
    } else if (key == 'r' || key == 'R') && ok {
        LoopControl::Reboot
    } else if (key == 's' || key == 'S') && ok {
        LoopControl::PowerOff
    } else {
        LoopControl::Stay
    }
}

/// Moves the spinner on by one frame once a tick has passed since
/// `last_tick_ms`; returns the time of the latest tick.
pub fn spinner_tick(app: &mut App, last_tick_ms: u64, now_ms: u64, frames: usize) -> (r: u64)
    requires
        frames > 0,
    ensures
        now_ms >= last_tick_ms && now_ms - last_tick_ms >= SPINNER_TICK_MS ==> {
            &&& final(app).spinner_idx == (old(app).spinner_idx + 1) % (frames as int)
            &&& r == now_ms
        },
        !(now_ms >= last_tick_ms && now_ms - last_tick_ms >= SPINNER_TICK_MS) ==> {
            &&& final(app).spinner_idx == old(app).spinner_idx
            &&& r == last_tick_ms
        },
        final(app).steps@ == old(app).steps@,
        final(app).logs@ == old(app).logs@,
        final(app).progress == old(app).progress,
        final(app).done == old(app).done,
        final(app).err == old(app).err,
{
    if now_ms >= last_tick_ms && now_ms - last_tick_ms >= SPINNER_TICK_MS {
        let at = app.spinner_idx % frames;
        proof {
            lemma_add_mod_noop_right(1, app.spinner_idx as int, frames as int);
        }
        app.spinner_idx = (at + 1) % frames;
        now_ms
    } else {
        last_tick_ms
    }
}

/// Whether the event is a successful end, after which the failed-packages
/// marker is looked for.
pub fn wants_marker_check(evt: &InstallerEvent) -> (r: bool)
    ensures
        r == (match evt {
            InstallerEvent::Done(err) => err is None,
            _ => false,
        }),
{
    match evt {
        InstallerEvent::Done(err) => err.is_none(),
        _ => false,
    }
}

} // verus!
