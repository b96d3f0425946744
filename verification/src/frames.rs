//! Frame numbering for export targets.
//!
//! A single global tick advances once per application tick.  Each export
//! target remembers the tick at which it started exporting; the file index of
//! a readback is the distance from that start plus one, so every target's
//! file sequence begins at 1 no matter when the target joined.

use vstd::prelude::*;
use crate::naming::{spec_frame_path, zero_padded5};

verus! {

/// The global tick at which an export target produced its first frame.
#[derive(Clone, Copy, PartialEq, Eq, Structural, Debug)]
pub struct ImageExportStartFrame(pub u64);

/// The file index, starting at 1, of the frame captured at `global_tick` by a target
/// whose sequence began at `start_frame`.
pub open spec fn spec_file_frame_id(global_tick: u64, start_frame: u64) -> int {
    global_tick - start_frame + 1
}

/// Computes the file index for one readback: the distance from the target's
/// start tick, plus one.
pub fn file_frame_id(global_tick: u64, start_frame: ImageExportStartFrame) -> (r: u64)
    requires
        1 <= start_frame.0 <= global_tick,
    ensures
        r == spec_file_frame_id(global_tick, start_frame.0),
{
    global_tick - start_frame.0 + 1
}

/// A target's n-th captured frame carries file index n: the capture at tick
/// `start + (n - 1)` of a target that began at tick `start` is numbered `n`,
/// however large `start` is.
pub proof fn lemma_nth_frame_id(start: u64, n: u64)
    requires
        n >= 1,
        start + n - 1 <= u64::MAX,
    ensures
        spec_file_frame_id((start + n - 1) as u64, start) == n,
{
}

/// Two targets that begin at different global ticks both start their file
/// sequences at index 1: the first capture of each is numbered 1, and is
/// therefore written under the same zero-padded name `00001`.
pub proof fn lemma_sequences_start_at_one(t1: u64, t2: u64, dir: Seq<char>, ext: Seq<char>)
    requires
        t1 <= t2,
    ensures
        spec_file_frame_id(t1, t1) == 1,
        spec_file_frame_id(t2, t2) == 1,
        spec_frame_path(dir, spec_file_frame_id(t1, t1) as nat, ext) == spec_frame_path(
            dir,
            spec_file_frame_id(t2, t2) as nat,
            ext,
        ),
{
}

/// The name of a target's n-th frame is the zero-padded index n itself,
/// independent of the tick at which the target was registered.
pub proof fn lemma_nth_frame_name(start: u64, n: u64, dir: Seq<char>, ext: Seq<char>)
    requires
        n >= 1,
        start + n - 1 <= u64::MAX,
    ensures
        spec_frame_path(dir, spec_file_frame_id((start + n - 1) as u64, start) as nat, ext) == dir
            + seq!['/'] + zero_padded5(n as nat) + seq!['.'] + ext,
{
}

} // verus!
