//! Post-processing schedules: the passes of the two-buffer gaussian blur.

use vstd::prelude::*;

verus! {

/// One pass of the gaussian blur: whether it reads the ping-pong buffer (and so
/// writes the bloom texture) or reads the bloom texture (and writes the
/// ping-pong buffer), and whether it blurs along rows (`1`) or columns (`0`).
#[derive(Clone, Copy, PartialEq, Eq, Structural, Debug)]
pub struct BlurPass {
    pub from_pingpong: bool,
    pub horizontal: u32,
}

/// Pass `k` of a blur: the passes alternate between the two buffers and the two
/// directions, starting from the bloom texture and blurring along columns.
pub open spec fn blur_pass(k: int) -> BlurPass {
    BlurPass { from_pingpong: k % 2 == 1, horizontal: (k % 2) as u32 }
}

/// The number of passes a blur of `amount` makes: `amount`, or none when it is
/// not positive.
pub open spec fn pass_count(amount: i32) -> int {
    if amount > 0 { amount as int } else { 0 }
}

/// The gaussian blur wrapper that renders these passes.
pub struct GaussianBlurPostProcessingEffect;

impl GaussianBlurPostProcessingEffect {
    /// The passes of a blur of `amount` passes, in order. The amount must be even,
    /// so that the blurred image ends in the bloom texture.
    pub fn blur_passes(amount: i32) -> (passes: Vec<BlurPass>)
        requires
            amount % 2 == 0,
        ensures
            passes.len() == pass_count(amount),
            forall|k: int| 0 <= k < passes.len() ==> #[trigger] passes[k] == blur_pass(k),
    {
        let mut passes: Vec<BlurPass> = Vec::new();
        let mut horizontal: u32 = 0;
        let mut input_is_pingpong = false;
        let mut k: i32 = 0;
        while k < amount
            invariant
                0 <= k,
                amount > 0 ==> k <= amount,
                amount <= 0 ==> k == 0,
                passes.len() == k,
                horizontal == k % 2,
                input_is_pingpong == (k % 2 == 1),
                forall|j: int| 0 <= j < passes.len() ==> #[trigger] passes[j] == blur_pass(j),
            decreases amount - k,
        {
            passes.push(BlurPass { from_pingpong: input_is_pingpong, horizontal });
            if horizontal == 0 {
                horizontal = 1;
            } else {
                horizontal = 0;
            }
            input_is_pingpong = !input_is_pingpong;
            k = k + 1;
        }
        passes
    }
}

/// Law: a blur of an even, positive number of passes ends with a pass that
/// reads the ping-pong buffer, so the blurred image is left in the bloom texture.
pub proof fn law_blur_ends_in_bloom(amount: i32)
    requires
        amount > 0,
        amount % 2 == 0,
    ensures
        blur_pass(pass_count(amount) - 1).from_pingpong,
{
}

} // verus!
