//! Monotonic frame/time source.
//!
//! The clock is fed readings of a monotonic timer (nanoseconds since start)
//! and derives the per-frame delta, an optional CPU-time measurement, and the
//! frame counter. The frame counter advances only while the simulation is
//! playing, and its parity selects which of two double-buffered resources is
//! read and which is written this frame, so every ping-ponged resource stays
//! in lock-step with it.

use crate::text::{decimal_string, spec_decimal, spec_round_div, spec_two_digits, two_digit_string};
use vstd::prelude::*;
use vstd::string::StringExecFns;

verus! {

/// Parity index of a frame: the bind group (and with it the particle buffer
/// pair orientation) used by the simulation dispatch of that frame.
pub open spec fn spec_parity(frame: nat) -> nat {
    frame % 2
}

/// Alternate parity of a frame: the orientation holding the buffer most
/// recently written, used by every reader that wants stable data.
pub open spec fn spec_alt_parity(frame: nat) -> nat {
    (frame + 1) % 2
}

/// The particle buffer a simulation dispatch of the given frame reads:
/// bind group `i` binds buffer `i` read-only.
pub open spec fn spec_read_buffer(frame: nat) -> nat {
    spec_parity(frame)
}

/// The particle buffer a simulation dispatch of the given frame writes:
/// bind group `i` binds buffer `(i + 1) % 2` writable.
pub open spec fn spec_write_buffer(frame: nat) -> nat {
    (spec_parity(frame) + 1) % 2
}

/// The buffer used as simulation input at a frame is exactly the buffer the
/// previous frame's simulation wrote: the ping-pong never reads stale data
/// and never skips a frame.
pub proof fn lemma_parity_ping_pong(frame: nat)
    requires
        frame >= 1,
    ensures
        spec_read_buffer(frame) == spec_write_buffer((frame - 1) as nat),
{
}

/// A render pass of a frame binds the alternate parity, which is the buffer
/// that same frame's simulation dispatch just produced.
pub proof fn lemma_render_reads_just_written(frame: nat)
    ensures
        spec_alt_parity(frame) == spec_write_buffer(frame),
{
}

/// Monotonic frame/time source. All times are nanoseconds read from one
/// monotonic timer; the caller supplies each reading.
#[derive(Clone, Copy, Debug, PartialEq, Eq, Structural)]
pub struct Clock {
    /// Timer reading at the most recent `update`.
    pub last_update_ns: u64,
    /// Time between the two most recent `update` calls.
    pub current_delta_ns: u64,
    /// Time between the most recent `update` and the most recent
    /// `measure_cpu_time`.
    pub cpu_time_ns: u64,
    /// Number of simulation frames advanced so far.
    pub frame: usize,
}

impl Clock {
    /// A clock at timer origin, before any frame.
    pub fn new() -> (r: Clock)
        ensures
            r.last_update_ns == 0,
            r.current_delta_ns == 0,
            r.cpu_time_ns == 0,
            r.frame == 0,
    {
        Clock { last_update_ns: 0, current_delta_ns: 0, cpu_time_ns: 0, frame: 0 }
    }

    /// Records a new timer reading: the delta becomes the time since the
    /// previous reading, and the frame counter advances iff the simulation
    /// is playing. The reading must come from the same monotonic timer, so
    /// it is never behind the previous one.
    pub fn update(&mut self, now_ns: u64, play: bool)
        requires
            old(self).last_update_ns <= now_ns,
            old(self).frame < usize::MAX,
        ensures
            final(self).current_delta_ns == now_ns - old(self).last_update_ns,
            final(self).last_update_ns == now_ns,
            final(self).frame == old(self).frame + (if play { 1int } else { 0int }),
            final(self).cpu_time_ns == old(self).cpu_time_ns,
    {
        self.current_delta_ns = now_ns - self.last_update_ns;
        self.last_update_ns = now_ns;
        if play {
            self.frame = self.frame + 1;
        }
    }

    /// Records how much of the current frame was spent on the CPU: the time
    /// from the frame's `update` to this reading.
    pub fn measure_cpu_time(&mut self, now_ns: u64)
        requires
            old(self).last_update_ns <= now_ns,
        ensures
            final(self).cpu_time_ns == now_ns - old(self).last_update_ns,
            final(self).last_update_ns == old(self).last_update_ns,
            final(self).current_delta_ns == old(self).current_delta_ns,
            final(self).frame == old(self).frame,
    {
        self.cpu_time_ns = now_ns - self.last_update_ns;
    }

    /// Time between the two most recent updates, in nanoseconds.
    pub fn delta(&self) -> (r: u64)
        ensures
            r == self.current_delta_ns,
    {
        self.current_delta_ns
    }

    /// Number of simulation frames advanced so far.
    pub fn frame(&self) -> (r: usize)
        ensures
            r == self.frame,
    {
        self.frame
    }

    /// The bind group index for this frame's simulation dispatch.
    pub fn get_bindgroup_nr(&self) -> (r: usize)
        ensures
            r == spec_parity(self.frame as nat),
            r < 2,
    {
        self.frame % 2
    }

    /// The bind group index holding last-written, stable particle data:
    /// what render passes and cross-emitter readers bind.
    pub fn get_alt_bindgroup_nr(&self) -> (r: usize)
        ensures
            r == spec_alt_parity(self.frame as nat),
            r < 2,
    {
        if self.frame % 2 == 0 {
            1
        } else {
            0
        }
    }

    /// Elapsed time at the most recent update, in whole milliseconds: the
    /// timeline reading every animation evaluates against.
    pub fn elapsed_ms(&self) -> (r: u64)
        ensures
            r == self.last_update_ns / 1_000_000,
    {
        self.last_update_ns / 1_000_000
    }

    /// The frames-per-second readout for the current delta: the reciprocal
    /// of the delta in seconds, rounded to the nearest integer (zero when no
    /// time has passed between updates).
    pub open spec fn spec_fps(&self) -> nat {
        if self.current_delta_ns == 0 {
            0
        } else {
            spec_round_div(1_000_000_000, self.current_delta_ns as nat)
        }
    }

    /// The frames-per-second status line.
    pub open spec fn spec_fps_text(&self) -> Seq<char> {
        "FPS: "@ + spec_decimal(self.spec_fps())
    }

    /// Renders the frames-per-second status line.
    pub fn fps_text(&self) -> (r: String)
        ensures
            r@ == self.spec_fps_text(),
    {
        let d = self.current_delta_ns;
        let fps: u64 = if d == 0 {
            0
        } else {
            let q = 1_000_000_000u64 / d;
            let rem = 1_000_000_000u64 % d;
            proof {
                assert(q <= 1_000_000_000) by (nonlinear_arith)
                    requires
                        q == 1_000_000_000nat / (d as nat),
                        d >= 1,
                ;
            }
            if rem >= d - rem {
                q + 1
            } else {
                q
            }
        };
        let mut s = "FPS: ".to_owned();
        s.append(decimal_string(fps).as_str());
        proof {
            assert(s@ =~= self.spec_fps_text());
        }
        s
    }

    /// The frame time in whole milliseconds, rounded to nearest.
    pub open spec fn spec_frame_time_ms(&self) -> nat {
        spec_round_div(self.current_delta_ns as nat, 1_000_000)
    }

    /// The frame-time status line.
    pub open spec fn spec_frame_time_text(&self) -> Seq<char> {
        "Frame time ms: "@ + spec_decimal(self.spec_frame_time_ms())
    }

    /// Renders the frame-time status line.
    pub fn frame_time_text(&self) -> (r: String)
        ensures
            r@ == self.spec_frame_time_text(),
    {
        let d = self.current_delta_ns;
        let q = d / 1_000_000;
        let rem = d % 1_000_000;
        proof {
            assert(q < 0xffff_ffff_ffff_ffff) by (nonlinear_arith)
                requires
                    q == (d as nat) / 1_000_000,
                    d <= 0xffff_ffff_ffff_ffffu64,
            ;
        }
        let ms: u64 = if rem * 2 >= 1_000_000 {
            q + 1
        } else {
            q
        };
        let mut s = "Frame time ms: ".to_owned();
        s.append(decimal_string(ms).as_str());
        proof {
            assert(s@ =~= self.spec_frame_time_text());
        }
        s
    }

    /// The total running time status line: whole seconds and hundredths of
    /// a second since timer origin, at the most recent update.
    pub open spec fn spec_total_elapsed_text(&self) -> Seq<char> {
        "Time running: "@ + spec_decimal(self.last_update_ns as nat / 1_000_000_000) + "."@
            + spec_two_digits((self.last_update_ns as nat / 10_000_000) % 100)
    }

    /// Renders the total running time status line.
    pub fn total_elapsed_text(&self) -> (r: String)
        ensures
            r@ == self.spec_total_elapsed_text(),
    {
        let secs = self.last_update_ns / 1_000_000_000;
        let centis = (self.last_update_ns / 10_000_000) % 100;
        let mut s = "Time running: ".to_owned();
        s.append(decimal_string(secs).as_str());
        s.append(".");
        s.append(two_digit_string(centis).as_str());
        proof {
            assert(s@ =~= self.spec_total_elapsed_text());
        }
        s
    }

    /// The CPU-time status line: whole microseconds and hundredths of a
    /// microsecond spent on the CPU in the current frame.
    pub open spec fn spec_cpu_time_text(&self) -> Seq<char> {
        "CPU time micro sec: "@ + spec_decimal(self.cpu_time_ns as nat / 1_000) + "."@
            + spec_two_digits((self.cpu_time_ns as nat % 1_000) / 10)
    }

    /// Renders the CPU-time status line.
    pub fn cpu_time_text(&self) -> (r: String)
        ensures
            r@ == self.spec_cpu_time_text(),
    {
        let micros = self.cpu_time_ns / 1_000;
        let frac = (self.cpu_time_ns % 1_000) / 10;
        let mut s = "CPU time micro sec: ".to_owned();
        s.append(decimal_string(micros).as_str());
        s.append(".");
        s.append(two_digit_string(frac).as_str());
        proof {
            assert(s@ =~= self.spec_cpu_time_text());
        }
        s
    }
}

impl Default for Clock {
    /// Same as `new`: a clock at timer origin.
    fn default() -> (r: Clock)
        ensures
            r.last_update_ns == 0,
            r.current_delta_ns == 0,
            r.cpu_time_ns == 0,
            r.frame == 0,
    {
        Clock::new()
    }
}

} // verus!
