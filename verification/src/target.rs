//! Offscreen render targets: a colour texture bindable both as a render
//! destination and as a shader-sampled resource, with mip storage allocated
//! up front when the target will later be mip-sampled. Two instances exist
//! per process — the colour target and the visibility target — created once
//! at startup from a fixed resolution and never resized.

use crate::errors::ResourceAllocationError;
use vstd::prelude::*;

verus! {

/// Largest texture dimension the device accepts on one axis.
pub const MAX_TARGET_DIM: u32 = 65535;

/// floor(log2 n), with n at least 1.
pub open spec fn floor_log2(n: int) -> int
    decreases n,
{
    if n <= 1 {
        0
    } else {
        1 + floor_log2(n / 2)
    }
}

/// 2 to the k-th power, for non-negative k.
pub open spec fn pow2i(k: int) -> int
    decreases k,
{
    if k <= 0 {
        1
    } else {
        2 * pow2i(k - 1)
    }
}

/// floor(log2) never goes negative.
pub proof fn lemma_floor_log2_nonneg(n: int)
    ensures
        0 <= floor_log2(n),
    decreases n,
{
    if n > 1 {
        lemma_floor_log2_nonneg(n / 2);
    }
}

/// Anything below 2^k has floor(log2) below k.
pub proof fn lemma_floor_log2_bound(n: int, k: int)
    requires
        1 <= k,
        1 <= n < pow2i(k),
    ensures
        floor_log2(n) < k,
    decreases n,
{
    if n > 1 {
        assert(pow2i(k) == 2 * pow2i(k - 1));
        lemma_floor_log2_bound(n / 2, k - 1);
    } else {
        lemma_floor_log2_nonneg(n);
    }
}

/// Number of mip levels a mip-sampled texture with largest axis `max_dim`
/// carries: floor(log2(max_dim)) + 1, so the chain ends at a 1×1 level.
pub fn mip_level_count(max_dim: u32) -> (r: u32)
    requires
        1 <= max_dim <= MAX_TARGET_DIM,
    ensures
        r == floor_log2(max_dim as int) + 1,
{
    proof {
        reveal_with_fuel(pow2i, 18);
        lemma_floor_log2_bound(max_dim as int, 16);
    }
    let mut levels: u32 = 1;
    let mut d: u32 = max_dim;
    while d > 1
        invariant
            1 <= d,
            1 <= levels <= 16,
            floor_log2(max_dim as int) == levels - 1 + floor_log2(d as int),
            floor_log2(max_dim as int) < 16,
        decreases d,
    {
        proof {
            lemma_floor_log2_nonneg(d as int / 2);
        }
        d = d / 2;
        levels = levels + 1;
    }
    levels
}

/// Whether the device accepts `width` × `height` as a target resolution.
pub open spec fn valid_resolution(width: u32, height: u32) -> bool {
    &&& 1 <= width <= MAX_TARGET_DIM
    &&& 1 <= height <= MAX_TARGET_DIM
}

/// The mip-level count a well-formed target of this shape owns: the full
/// chain when it will be mip-sampled, a single level otherwise.
pub open spec fn expected_mip_levels(width: u32, height: u32, mip_sampled: bool) -> int {
    if mip_sampled {
        if width >= height {
            floor_log2(width as int) + 1
        } else {
            floor_log2(height as int) + 1
        }
    } else {
        1
    }
}

/// An owned offscreen render destination: a colour texture with a writable
/// render view and a readable sample view aliasing the same storage, plus a
/// depth buffer. Writes through the render view become visible to later
/// reads through the sample view once the frame's commands are flushed.
#[derive(Debug)]
pub struct OffscreenTarget {
    /// Width in pixels; fixed for the process lifetime.
    pub width: u32,
    /// Height in pixels; fixed for the process lifetime.
    pub height: u32,
    /// Whether mip storage was allocated up front for later mip-sampling.
    pub mip_sampled: bool,
    /// Number of mip levels the colour texture owns.
    pub mip_levels: u32,
}

impl OffscreenTarget {
    /// The target's invariant: an accepted resolution and the mip chain that
    /// matches its shape.
    pub open spec fn wf(&self) -> bool {
        &&& valid_resolution(self.width, self.height)
        &&& self.mip_levels == expected_mip_levels(self.width, self.height, self.mip_sampled)
    }

    /// Creates a target, with the full mip chain allocated up front when
    /// `mip_sampled` asks for later mip-sampling. Fails — recording no
    /// partial resource — exactly when the device does not accept the
    /// resolution.
    pub fn create(width: u32, height: u32, mip_sampled: bool) -> (r: Result<
        OffscreenTarget,
        ResourceAllocationError,
    >)
        ensures
            match r {
                Ok(t) => {
                    &&& valid_resolution(width, height)
                    &&& t.width == width
                    &&& t.height == height
                    &&& t.mip_sampled == mip_sampled
                    &&& t.wf()
                },
                Err(e) => {
                    &&& !valid_resolution(width, height)
                    &&& e == ResourceAllocationError
                },
            },
    {
        if width < 1 || width > MAX_TARGET_DIM || height < 1 || height > MAX_TARGET_DIM {
            return Err(ResourceAllocationError);
        }
        let levels: u32 = if mip_sampled {
            mip_level_count(if width >= height {
                width
            } else {
                height
            })
        } else {
            1
        };
        Ok(OffscreenTarget { width, height, mip_sampled, mip_levels: levels })
    }
}

} // verus!
