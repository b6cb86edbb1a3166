//! The decisions of the background listener (`listen-hotkeys`) and of the
//! window's animation loop: decoding a key event, recognising Fn+Space,
//! when the stored profiles are re-read, when the next colour-wave frame is
//! due and how far it steps, and which failures drop the controller handle.
//! Reading the input node, sleeping, clocks and the float animation itself
//! are the application's part; times reach this module as microseconds.

use vstd::prelude::*;

use crate::error::Error;
use crate::hotkey::FN_SPACE_CODE;
use crate::text::{decimal, push_decimal, push_str};

verus! {

/// Size of one Linux `input_event` record on a 64-bit system.
pub const INPUT_EVENT_LEN: usize = 24;

/// The `EV_KEY` event type.
pub const EV_KEY: u16 = 1;

/// Key value of a press (0 is release, 2 is auto-repeat).
pub const KEY_PRESS: u32 = 1;

/// Time between colour-wave frames (~25 fps).
pub const FRAME_INTERVAL_US: u64 = 40_000;

/// The longest step one frame may advance the wave, so a stall does not
/// make it jump.
pub const MAX_FRAME_STEP_US: u64 = 250_000;

/// How often the listener re-reads the stored profiles.
pub const STORE_REFRESH_US: u64 = 1_000_000;

/// How long the window waits after the last edit before writing to the
/// hardware.
pub const EDIT_SETTLE_US: u64 = 150_000;

/// The type, code and value of one input event.
#[derive(Debug, Clone, Copy, PartialEq, Eq, Structural)]
pub struct KeyEvent {
    pub kind: u16,
    pub code: u16,
    pub value: u32,
}

/// Little-endian 16-bit value of two bytes.
pub open spec fn le16(b0: u8, b1: u8) -> int {
    b0 + 256 * b1
}

/// Little-endian 32-bit value of four bytes.
pub open spec fn le32(b0: u8, b1: u8, b2: u8, b3: u8) -> int {
    b0 + 256 * b1 + 65536 * b2 + 16777216 * b3
}

/// The event a full record holds: type at bytes 16-17, code at 18-19 and
/// value at 20-23, after the 16-byte timestamp.
pub open spec fn event_of(buf: Seq<u8>) -> KeyEvent
    recommends
        buf.len() == INPUT_EVENT_LEN,
{
    KeyEvent {
        kind: le16(buf[16], buf[17]) as u16,
        code: le16(buf[18], buf[19]) as u16,
        value: le32(buf[20], buf[21], buf[22], buf[23]) as u32,
    }
}

/// Decode what a read of `n` bytes into the record buffer produced: an
/// event only when the whole record arrived.
pub fn decode_input_event(buf: &[u8; INPUT_EVENT_LEN], n: usize) -> (r: Option<KeyEvent>)
    ensures
        n != INPUT_EVENT_LEN ==> r is None,
        n == INPUT_EVENT_LEN ==> r == Some(event_of(buf@)),
{
    if n != INPUT_EVENT_LEN {
        return None;
    }
    let kind: u16 = buf[16] as u16 + (buf[17] as u16) * 256;
    let code: u16 = buf[18] as u16 + (buf[19] as u16) * 256;
    let value: u32 = buf[20] as u32 + (buf[21] as u32) * 256 + (buf[22] as u32) * 65536
        + (buf[23] as u32) * 16777216;
    Some(KeyEvent { kind, code, value })
}

/// A press of Fn+Space: a key event with the Fn+Space code and a press
/// value.
pub open spec fn is_hotkey_press(ev: KeyEvent) -> bool {
    ev.kind == EV_KEY && ev.code == FN_SPACE_CODE && ev.value == KEY_PRESS
}

/// Does this event ask for the next profile?
pub fn is_profile_hotkey(ev: KeyEvent) -> (b: bool)
    ensures
        b == is_hotkey_press(ev),
{
    ev.kind == EV_KEY && ev.code == FN_SPACE_CODE && ev.value == KEY_PRESS
}

/// Re-read the stored profiles once a second.
pub fn store_refresh_due(since_last_us: u64) -> (b: bool)
    ensures
        b == (since_last_us >= STORE_REFRESH_US),
{
    since_last_us >= STORE_REFRESH_US
}

/// Write the pending edit once the user has paused for a moment.
pub fn edit_settled(dirty: bool, since_edit_us: u64) -> (b: bool)
    ensures
        b == (dirty && since_edit_us >= EDIT_SETTLE_US),
{
    dirty && since_edit_us >= EDIT_SETTLE_US
}

/// What the colour-wave animation does now.
#[derive(Debug, Clone, Copy, PartialEq, Eq, Structural)]
pub enum FrameTiming {
    /// Render a frame advancing the wave by this many microseconds.
    Render { step_us: u64 },
    /// The next frame is due in this many microseconds.
    Wait { remaining_us: u64 },
}

/// Frame timing given the time since the last frame (none yet: render at
/// once, stepping one interval). The step is capped at
/// [`MAX_FRAME_STEP_US`].
pub open spec fn frame_timing_spec(since_last_us: Option<u64>) -> FrameTiming {
    match since_last_us {
        None => FrameTiming::Render { step_us: FRAME_INTERVAL_US },
        Some(t) => {
            let step = if t > MAX_FRAME_STEP_US {
                MAX_FRAME_STEP_US
            } else {
                t
            };
            if step < FRAME_INTERVAL_US {
                FrameTiming::Wait { remaining_us: (FRAME_INTERVAL_US - step) as u64 }
            } else {
                FrameTiming::Render { step_us: step }
            }
        },
    }
}

/// Decide whether the next colour-wave frame is due, and its step.
pub fn frame_timing(since_last_us: Option<u64>) -> (f: FrameTiming)
    ensures
        f == frame_timing_spec(since_last_us),
        f matches FrameTiming::Render { step_us } ==> FRAME_INTERVAL_US <= step_us
            <= MAX_FRAME_STEP_US,
        f matches FrameTiming::Wait { remaining_us } ==> 0 < remaining_us <= FRAME_INTERVAL_US,
{
    match since_last_us {
        None => FrameTiming::Render { step_us: FRAME_INTERVAL_US },
        Some(t) => {
            let step = if t > MAX_FRAME_STEP_US {
                MAX_FRAME_STEP_US
            } else {
                t
            };
            if step < FRAME_INTERVAL_US {
                FrameTiming::Wait { remaining_us: FRAME_INTERVAL_US - step }
            } else {
                FrameTiming::Render { step_us: step }
            }
        },
    }
}

/// A failed frame that means the controller went away: the handle is
/// dropped so the next frame opens it again.
pub fn drops_controller(e: &Error) -> (b: bool)
    ensures
        b == (e is DeviceNotFound || e is Io),
{
    match e {
        Error::DeviceNotFound(_) => true,
        Error::Io(_) => true,
        _ => false,
    }
}

/// Microseconds from `then` to `now` on the loop's monotonic clock (a
/// reading earlier than `then` counts as no time).
pub open spec fn since_us(then: u64, now: u64) -> u64 {
    if now >= then {
        (now - then) as u64
    } else {
        0
    }
}

/// What the background listener remembers between passes of its loop:
/// clock readings in microseconds since the loop started.
#[derive(Debug, Clone, Copy, PartialEq, Eq, Structural)]
pub struct ListenState {
    /// When the stored profiles were last read; none before the first read.
    pub store_read_at_us: Option<u64>,
    /// When the last colour-wave frame was written; none when the wave
    /// starts over.
    pub frame_at_us: Option<u64>,
}

/// What happened, as the listener's loop reports it.
#[derive(Debug)]
pub enum ListenEvent {
    /// The loop came round again at `now_us` (after handling input).
    Pass { now_us: u64 },
    /// The wave check that follows: whether the active profile is a
    /// host-rendered wave, and whether a controller handle is open.
    Wave { now_us: u64, host_rendered: bool, controller_open: bool },
    /// Fn+Space switched to, stored and applied the next profile.
    ProfileSwitched,
    /// Writing a wave frame failed with this error.
    FrameFailed(Error),
}

/// What the loop does next.
#[derive(Debug, Clone, Copy, PartialEq, Eq, Structural)]
pub enum ListenAction {
    Nothing,
    /// Re-read the stored profiles to pick up edits made elsewhere.
    ReadStore,
    /// Put the wave back at its start.
    ResetWave,
    /// Advance the wave by this many microseconds and write the frame.
    Render { step_us: u64 },
    /// Forget the controller handle: the device went away.
    DropController,
}

impl ListenState {
    /// Before the first pass: nothing read, no frame written.
    pub fn new() -> (s: Self)
        ensures
            s.store_read_at_us is None,
            s.frame_at_us is None,
    {
        ListenState { store_read_at_us: None, frame_at_us: None }
    }
}

/// The listener's decisions. The stored profiles are read on the first
/// pass and then once a second. The wave runs only while the active
/// profile is host-rendered and a controller is open; leaving such a
/// profile, or switching profile with Fn+Space, starts it over. A frame is
/// written when [`frame_timing_spec`] says it is due. A failed frame drops
/// the controller when the device is gone or unreachable.
pub open spec fn listen_next(s: ListenState, ev: ListenEvent) -> (ListenState, ListenAction) {
    match ev {
        ListenEvent::Pass { now_us } => {
            let due = match s.store_read_at_us {
                None => true,
                Some(t) => since_us(t, now_us) >= STORE_REFRESH_US,
            };
            if due {
                (ListenState { store_read_at_us: Some(now_us), ..s }, ListenAction::ReadStore)
            } else {
                (s, ListenAction::Nothing)
            }
        },
        ListenEvent::Wave { now_us, host_rendered, controller_open } => {
            if !host_rendered {
                (ListenState { frame_at_us: None, ..s }, ListenAction::ResetWave)
            } else if !controller_open {
                (s, ListenAction::Nothing)
            } else {
                let since = match s.frame_at_us {
                    None => None,
                    Some(t) => Some(since_us(t, now_us)),
                };
                match frame_timing_spec(since) {
                    FrameTiming::Render { step_us } => (
                        ListenState { frame_at_us: Some(now_us), ..s },
                        ListenAction::Render { step_us },
                    ),
                    FrameTiming::Wait { .. } => (s, ListenAction::Nothing),
                }
            }
        },
        ListenEvent::ProfileSwitched => (
            ListenState { frame_at_us: None, ..s },
            ListenAction::ResetWave,
        ),
        ListenEvent::FrameFailed(e) => (
            s,
            if e is DeviceNotFound || e is Io {
                ListenAction::DropController
            } else {
                ListenAction::Nothing
            },
        ),
    }
}

/// One step of the listener: the next state and what to do.
pub fn listen_step(s: ListenState, ev: ListenEvent) -> (r: (ListenState, ListenAction))
    ensures
        r == listen_next(s, ev),
        r.1 matches ListenAction::Render { step_us } ==> (ev matches ListenEvent::Wave {
            host_rendered,
            controller_open,
            ..
        } && host_rendered && controller_open && FRAME_INTERVAL_US <= step_us
            <= MAX_FRAME_STEP_US),
        r.1 is DropController ==> ev is FrameFailed,
{
    match ev {
        ListenEvent::Pass { now_us } => {
            let due = match s.store_read_at_us {
                None => true,
                Some(t) => store_refresh_due(elapsed_between(t, now_us)),
            };
            if due {
                (ListenState { store_read_at_us: Some(now_us), ..s }, ListenAction::ReadStore)
            } else {
                (s, ListenAction::Nothing)
            }
        },
        ListenEvent::Wave { now_us, host_rendered, controller_open } => {
            if !host_rendered {
                (ListenState { frame_at_us: None, ..s }, ListenAction::ResetWave)
            } else if !controller_open {
                (s, ListenAction::Nothing)
            } else {
                let since = match s.frame_at_us {
                    None => None,
                    Some(t) => Some(elapsed_between(t, now_us)),
                };
                match frame_timing(since) {
                    FrameTiming::Render { step_us } => (
                        ListenState { frame_at_us: Some(now_us), ..s },
                        ListenAction::Render { step_us },
                    ),
                    FrameTiming::Wait { .. } => (s, ListenAction::Nothing),
                }
            }
        },
        ListenEvent::ProfileSwitched => (
            ListenState { frame_at_us: None, ..s },
            ListenAction::ResetWave,
        ),
        ListenEvent::FrameFailed(e) => {
            let a = if drops_controller(&e) {
                ListenAction::DropController
            } else {
                ListenAction::Nothing
            };
            (s, a)
        },
    }
}

/// Microseconds from `then` to `now`, none counted when the clock reads
/// earlier.
fn elapsed_between(then: u64, now: u64) -> (d: u64)
    ensures
        d == since_us(then, now),
{
    if now >= then {
        now - then
    } else {
        0
    }
}

/// Switching profile restarts the wave: the next wave check with a
/// host-rendered profile and an open controller writes a frame at once,
/// stepping one frame interval.
pub proof fn lemma_switch_restarts_wave(s: ListenState, now_us: u64)
    ensures
        ({
            let (s1, a1) = listen_next(s, ListenEvent::ProfileSwitched);
            let (s2, a2) = listen_next(
                s1,
                ListenEvent::Wave { now_us, host_rendered: true, controller_open: true },
            );
            a1 == ListenAction::ResetWave && a2 == ListenAction::Render {
                step_us: FRAME_INTERVAL_US,
            } && s2.frame_at_us == Some(now_us)
        }),
{
}

/// Frames are paced: right after a frame at `t`, a wave check less than
/// one frame interval later writes nothing.
pub proof fn lemma_frames_paced(s: ListenState, t: u64, now_us: u64)
    requires
        s.frame_at_us == Some(t),
        t <= now_us,
        now_us - t < FRAME_INTERVAL_US,
    ensures
        listen_next(
            s,
            ListenEvent::Wave { now_us, host_rendered: true, controller_open: true },
        ) == (s, ListenAction::Nothing),
{
}

/// The refusal of a second listener while another process holds the
/// writer lock.
pub open spec fn already_running_message(owner: Option<u32>) -> Seq<char> {
    "pid "@ + match owner {
        Some(p) => decimal(p as nat),
        None => "unknown"@,
    } + " already holds the lighting writer lock"@
}

pub fn already_running_error(owner: Option<u32>) -> (e: Error)
    ensures
        e matches Error::AlreadyRunning(m) && m@ == already_running_message(owner),
{
    let mut m = String::new();
    push_str(&mut m, "pid ");
    match owner {
        Some(p) => push_decimal(&mut m, p as u64),
        None => push_str(&mut m, "unknown"),
    }
    push_str(&mut m, " already holds the lighting writer lock");
    assert(m@ =~= already_running_message(owner));
    Error::AlreadyRunning(m)
}

} // verus!
