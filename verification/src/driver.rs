//! The audio output driver's computational core.
//!
//! On every hardware-clocked callback the driver pulls synthesized stereo
//! blocks until the output buffer is full. Each block passes through here:
//! both channels are hard-clipped to the safety range before they reach the
//! device, the clipped pair is interleaved for the output buffer, and the
//! clipped left channel is handed back for the shared analysis buffer.

use vstd::prelude::*;

verus! {

/// The hard-clip safety bound: half a unit, in milli-units.
pub const CLIP_LIMIT: i64 = 500;

/// A sample hard-clipped to the safety range.
pub open spec fn spec_clip(s: int) -> int {
    if s < -CLIP_LIMIT {
        -CLIP_LIMIT as int
    } else if s > CLIP_LIMIT {
        CLIP_LIMIT as int
    } else {
        s
    }
}

/// The sample that interleaved output slot `k` carries: the clipped left
/// channel on even slots, the clipped right channel on odd ones.
pub open spec fn spec_interleaved(left: Seq<i64>, right: Seq<i64>, k: int) -> int {
    if k % 2 == 0 {
        spec_clip(left[k / 2] as int)
    } else {
        spec_clip(right[k / 2] as int)
    }
}

/// Hard-clip one synthesized stereo block to the safety range and
/// interleave it for the output device. Returns the interleaved stereo
/// samples and the clipped left channel destined for the analysis buffer.
pub fn clip_and_interleave(left: &Vec<i64>, right: &Vec<i64>) -> (r: (Vec<i64>, Vec<i64>))
    requires
        left@.len() == right@.len(),
        left@.len() <= 1_000_000_000,
    ensures
        r.0@.len() == 2 * left@.len(),
        r.1@.len() == left@.len(),
        forall|k: int|
            0 <= k < r.0@.len() ==> #[trigger] r.0@[k] == spec_interleaved(left@, right@, k),
        forall|i: int| 0 <= i < r.1@.len() ==> #[trigger] r.1@[i] == spec_clip(left@[i] as int),
        forall|i: int|
            0 <= i < r.1@.len() ==> -CLIP_LIMIT <= #[trigger] r.1@[i] <= CLIP_LIMIT,
{
    let n = left.len();
    let mut out: Vec<i64> = Vec::new();
    let mut mono: Vec<i64> = Vec::new();
    let mut i: usize = 0;
    while i < n
        invariant
            n == left@.len(),
            n == right@.len(),
            n <= 1_000_000_000,
            i <= n,
            out@.len() == 2 * i,
            mono@.len() == i,
            forall|k: int|
                0 <= k < out@.len() ==> #[trigger] out@[k] == spec_interleaved(left@, right@, k),
            forall|j: int| 0 <= j < i ==> #[trigger] mono@[j] == spec_clip(left@[j] as int),
            forall|j: int| 0 <= j < i ==> -CLIP_LIMIT <= #[trigger] mono@[j] <= CLIP_LIMIT,
        decreases n - i,
    {
        let l = clip(left[i]);
        let rgt = clip(right[i]);
        out.push(l);
        out.push(rgt);
        mono.push(l);
        proof {
            assert forall|k: int|
                0 <= k < out@.len() implies #[trigger] out@[k] == spec_interleaved(
                left@,
                right@,
                k,
            ) by {
                if k >= 2 * i {
                    vstd::arithmetic::div_mod::lemma_fundamental_div_mod_converse(
                        k,
                        2,
                        i as int,
                        k - 2 * i,
                    );
                }
            }
        }
        i = i + 1;
    }
    (out, mono)
}

/// Hard-clip one sample to the safety range.
fn clip(s: i64) -> (r: i64)
    ensures
        r == spec_clip(s as int),
        -CLIP_LIMIT <= r <= CLIP_LIMIT,
{
    if s < -CLIP_LIMIT {
        -CLIP_LIMIT
    } else if s > CLIP_LIMIT {
        CLIP_LIMIT
    } else {
        s
    }
}

} // verus!
