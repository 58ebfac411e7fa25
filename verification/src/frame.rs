//! The frame loop's decisions: elapsed-time measurement between wall-clock
//! samples, the verdict on one drained batch of window events, and the fixed
//! per-frame draw commands.
//!
//! The loop itself lives with the window and driver: it samples the clock
//! through [`frame_tick`], hands each drained event batch to
//! [`process_events`], and replays [`frame_commands`] before presenting.
//! Its only exit is the close-event termination decided here.

use vstd::prelude::*;

verus! {

use crate::geometry::quad_index_words_spec;

/// A window event as the loop classifies it: a request to close the window,
/// or anything else, which is ignored.
#[derive(Clone, Copy, PartialEq, Eq, Structural, Debug)]
pub enum WindowEvent {
    /// The window was asked to close.
    CloseRequested,
    /// Any other event kind.
    Other,
}

/// The verdict on one drained batch of events.
#[derive(Clone, Copy, PartialEq, Eq, Structural, Debug)]
pub enum LoopControl {
    /// Keep iterating.
    Continue,
    /// Terminate the process immediately with the given exit code.
    Terminate { exit_code: i32 },
}

/// Whether a batch holds at least one close request.
pub open spec fn has_close(events: Seq<WindowEvent>) -> bool {
    exists|i: int| 0 <= i < events.len() && events[i] is CloseRequested
}

/// Decide one drained batch: a close request anywhere in it terminates the
/// process with the success exit code, whatever other events surround it;
/// every other event kind is ignored.
pub fn process_events(events: &Vec<WindowEvent>) -> (r: LoopControl)
    ensures
        r is Terminate <==> has_close(events@),
        r matches LoopControl::Terminate { exit_code } ==> exit_code == 0,
{
    let mut i: usize = 0;
    while i < events.len()
        invariant
            i <= events@.len(),
            forall|j: int| 0 <= j < i ==> !(events@[j] is CloseRequested),
        decreases events@.len() - i,
    {
        match events[i] {
            WindowEvent::CloseRequested => {
                assert(has_close(events@));
                return LoopControl::Terminate { exit_code: 0 };
            },
            WindowEvent::Other => {},
        }
        i = i + 1;
    }
    LoopControl::Continue
}

/// One close request decides termination, no matter how many events of other
/// kinds stand before or after it in the same drained batch.
pub proof fn lemma_close_terminates(events: Seq<WindowEvent>, k: int)
    requires
        0 <= k < events.len(),
        events[k] is CloseRequested,
    ensures
        has_close(events),
{
}

/// A wall-clock sample: whole seconds since the epoch and the nanoseconds
/// within that second.
#[derive(Clone, Copy, PartialEq, Eq, Structural, Debug)]
pub struct Timestamp {
    /// Whole seconds since the epoch; negative for samples before it.
    pub sec: i64,
    /// Nanoseconds within the second.
    pub nsec: u32,
}

impl Timestamp {
    /// The nanosecond part names a point within one second.
    pub open spec fn wf(&self) -> bool {
        self.nsec < 1_000_000_000
    }

    /// This sample as a count of nanoseconds since the epoch.
    pub open spec fn as_nanos(&self) -> int {
        self.sec * 1_000_000_000 + self.nsec
    }
}

/// Relies on `time::OffsetDateTime`: `now_utc` samples the system clock, and
/// `unix_timestamp` and `nanosecond` report the sample as whole seconds and
/// nanoseconds within the second, the latter documented to lie below one
/// billion. Nothing is promised of which moment the clock reports.
#[verifier::external_body]
fn now_timestamp() -> (r: Timestamp)
    ensures
        r.wf(),
{
    let t = time::OffsetDateTime::now_utc();
    Timestamp { sec: t.unix_timestamp(), nsec: t.nanosecond() }
}

/// The timing baseline taken before the first iteration: the first
/// iteration has no earlier sample to diff against meaningfully, so it
/// measures from here and its elapsed time starts at the zero baseline.
pub fn start_timing() -> (r: Timestamp)
    ensures
        r.wf(),
{
    now_timestamp()
}

/// Milliseconds from `prev` to `curr`: the nanosecond difference divided by
/// one million with the fraction dropped toward zero, saturated at the
/// extremes of the result type.
pub open spec fn elapsed_ms_spec(prev: Timestamp, curr: Timestamp) -> int {
    let d = curr.as_nanos() - prev.as_nanos();
    let ms = if d >= 0 {
        d / 1_000_000
    } else {
        -((-d) / 1_000_000)
    };
    if ms > i64::MAX {
        i64::MAX as int
    } else if ms < i64::MIN {
        i64::MIN as int
    } else {
        ms
    }
}

/// Compute the elapsed milliseconds between two well-formed samples.
pub fn elapsed_ms(prev: &Timestamp, curr: &Timestamp) -> (r: i64)
    requires
        prev.wf(),
        curr.wf(),
    ensures
        r == elapsed_ms_spec(*prev, *curr),
{
    let prev_nanos: i128 = (prev.sec as i128) * 1_000_000_000 + (prev.nsec as i128);
    let curr_nanos: i128 = (curr.sec as i128) * 1_000_000_000 + (curr.nsec as i128);
    let d: i128 = curr_nanos - prev_nanos;
    let ms: i128 = if d >= 0 {
        (((d as u128) / 1_000_000u128)) as i128
    } else {
        -((((-d) as u128) / 1_000_000u128) as i128)
    };
    if ms > i64::MAX as i128 {
        i64::MAX
    } else if ms < i64::MIN as i128 {
        i64::MIN
    } else {
        ms as i64
    }
}

/// Elapsed time is non-negative for any two well-formed samples a
/// monotonically non-decreasing clock reported in order.
pub proof fn lemma_elapsed_nonnegative(prev: Timestamp, curr: Timestamp)
    requires
        prev.wf(),
        curr.wf(),
        prev.as_nanos() <= curr.as_nanos(),
    ensures
        elapsed_ms_spec(prev, curr) >= 0,
{
}

/// One timing step of the frame loop: sample the clock and report the new
/// sample together with the elapsed milliseconds since the previous one.
/// Whatever moment the clock reports, the elapsed value is exactly the
/// distance from `prev` to it.
pub fn frame_tick(prev: &Timestamp) -> (r: (Timestamp, i64))
    requires
        prev.wf(),
    ensures
        r.0.wf(),
        r.1 == elapsed_ms_spec(*prev, r.0),
{
    let now = now_timestamp();
    let delta = elapsed_ms(prev, &now);
    (now, delta)
}

/// One step of the per-frame draw sequence. The clear color is carried as
/// the IEEE-754 bit patterns of its four channels.
#[derive(Clone, Copy, PartialEq, Eq, Structural, Debug)]
pub enum FrameCmd {
    /// Set the clear color to the fixed opaque background.
    SetClearColor { red_bits: u32, green_bits: u32, blue_bits: u32, alpha_bits: u32 },
    /// Clear the color buffer.
    ClearColorBuffer,
    /// Draw the quad: one indexed draw over `index_count` indices read as
    /// triangles.
    DrawIndexedTriangles { index_count: u32 },
}

/// IEEE-754 single-precision bit pattern of the background's red, green and
/// blue channels (three tenths).
pub const BG_CHANNEL_BITS: u32 = 0x3E99_999A;

/// IEEE-754 single-precision bit pattern of the background's alpha channel
/// (one: fully opaque).
pub const BG_ALPHA_BITS: u32 = 0x3F80_0000;

/// The fixed per-frame draw sequence: set the background color, clear, and
/// issue the one indexed draw call over the quad's six indices.
pub open spec fn frame_commands_spec() -> Seq<FrameCmd> {
    seq![
        FrameCmd::SetClearColor {
            red_bits: BG_CHANNEL_BITS,
            green_bits: BG_CHANNEL_BITS,
            blue_bits: BG_CHANNEL_BITS,
            alpha_bits: BG_ALPHA_BITS,
        },
        FrameCmd::ClearColorBuffer,
        FrameCmd::DrawIndexedTriangles { index_count: quad_index_words_spec().len() as u32 },
    ]
}

/// The draw sequence of one frame, in the exact order it must reach the
/// driver.
pub fn frame_commands() -> (r: Vec<FrameCmd>)
    ensures
        r@ == frame_commands_spec(),
{
    let r: Vec<FrameCmd> = vec![
        FrameCmd::SetClearColor {
            red_bits: BG_CHANNEL_BITS,
            green_bits: BG_CHANNEL_BITS,
            blue_bits: BG_CHANNEL_BITS,
            alpha_bits: BG_ALPHA_BITS,
        },
        FrameCmd::ClearColorBuffer,
        FrameCmd::DrawIndexedTriangles { index_count: 6 },
    ];
    assert(r@ =~= frame_commands_spec());
    r
}

} // verus!
