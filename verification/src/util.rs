//! Frame timing.

use vstd::prelude::*;

verus! {

pub const NS_PER_SECOND: u64 = 1_000_000_000;

/// One second divided by `fps`, in nanoseconds, rounded to the nearest
/// whole number and upwards from a half. At zero frames per second a frame
/// never ends: the result is the largest value there is.
pub open spec fn frame_ns(fps: int) -> int {
    if fps == 0 {
        u64::MAX as int
    } else {
        (2 * 1_000_000_000 + fps) / (2 * fps)
    }
}

/// A quotient below one is zero.
proof fn lemma_small_quotient(a: int, b: int)
    by (nonlinear_arith)
    requires
        0 <= a < b,
    ensures
        a / b == 0,
{
}

/// The length of one frame at `fps` frames per second, in nanoseconds.
pub fn ns_per_frame(fps: usize) -> (ns: u64)
    ensures
        ns == frame_ns(fps as int),
{
    if fps == 0 {
        u64::MAX
    } else if fps > 2_000_000_000 {
        proof {
            lemma_small_quotient(2 * 1_000_000_000 + fps, 2 * fps);
        }
        0
    } else {
        let rate = fps as u64;
        (2 * NS_PER_SECOND + rate) / (2 * rate)
    }
}

/// How long to wait so that a frame that began `elapsed_ns` nanoseconds ago
/// lasts `ns_per_frame(rate)`: nothing, if it has lasted that long already.
pub fn frame_time_left(rate: usize, elapsed_ns: u64) -> (wait: Option<u64>)
    ensures
        wait == if elapsed_ns < frame_ns(rate as int) {
            Some((frame_ns(rate as int) - elapsed_ns) as u64)
        } else {
            None
        },
{
    let frame = ns_per_frame(rate);
    if elapsed_ns < frame {
        Some(frame - elapsed_ns)
    } else {
        None
    }
}

} // verus!
