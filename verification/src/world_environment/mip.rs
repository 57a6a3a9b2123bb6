//! Mip chain arithmetic of the specular image-based-lighting cubemap.
use vstd::prelude::*;
use vstd::arithmetic::logarithm::{lemma_log0, lemma_log_nonnegative, lemma_log_s, log};
use vstd::arithmetic::power::{lemma_pow_increases, pow};
use vstd::arithmetic::power2::pow2;
use vstd::bits::lemma_u32_shr_is_div;
use vstd::bytes::{
    lemma_auto_spec_u32_to_from_le_bytes, spec_u32_from_le_bytes, spec_u32_to_le_bytes, u32_to_le_bytes,
};

use crate::world_environment::sampling_type::{sampling_code, SamplingType};

verus! {

/// The largest number of mip levels a cubemap face of side `size` can have:
/// one more than the base-2 logarithm of the size, rounded down.
pub open spec fn max_mip_levels(size: u32) -> int {
    log(2, size as int) + 1
}

/// The number of specular mip levels used for a cube face of side
/// `cube_face_size`: the requested count, or seven levels where none is
/// requested, in both cases at most [`max_mip_levels`].
pub open spec fn spec_mip_level_count(cube_face_size: u32, requested: Option<u32>) -> int {
    let max = max_mip_levels(cube_face_size);
    let wanted: int = match requested {
        Some(r) => r as int,
        None => 7,
    };
    if wanted <= max {
        wanted
    } else {
        max
    }
}

/// The base-2 logarithm of `n`, rounded down (`u32::ilog2`).
fn floor_log2(n: u32) -> (res: u32)
    requires
        n > 0,
    ensures
        res == log(2, n as int),
        res < n,
{
    let mut v: u32 = n;
    let mut k: u32 = 0;
    while v >= 2
        invariant
            0 < v <= n,
            k + v <= n,
            k + log(2, v as int) == log(2, n as int),
        decreases v,
    {
        proof {
            lemma_log_s(2, v as int);
        }
        v = v / 2;
        k = k + 1;
    }
    proof {
        lemma_log0(2, v as int);
    }
    k
}

/// The number of specular mip levels to generate for a cube face of side
/// `cube_face_size`: the requested count, or a default of seven levels (the
/// base level and six more), clamped to what the face size allows.
pub fn calculate_specular_mip_level_count(
    cube_face_size: u32,
    requested_mip_level_count: Option<u32>,
) -> (res: u32)
    requires
        cube_face_size > 0,
    ensures
        res == spec_mip_level_count(cube_face_size, requested_mip_level_count),
{
    let max_possible_mip_levels = floor_log2(cube_face_size) + 1;
    let reasonable_default_mip_levels: u32 = if 7 < max_possible_mip_levels {
        7
    } else {
        max_possible_mip_levels
    };
    let requested = match requested_mip_level_count {
        Some(r) => r,
        None => reasonable_default_mip_levels,
    };
    if requested < max_possible_mip_levels {
        requested
    } else {
        max_possible_mip_levels
    }
}

/// The side of mip level `mip_level` of a texture side `base`: the base side
/// halved once per level, and at least one.
pub open spec fn spec_mip_extent(base: u32, mip_level: u32) -> u32 {
    let halved = base >> mip_level;
    if halved < 1 {
        1
    } else {
        halved
    }
}

/// The side of mip level `mip_level` of a texture side `base`.
pub fn mip_extent(base: u32, mip_level: u32) -> (res: u32)
    requires
        mip_level < 32,
    ensures
        res == spec_mip_extent(base, mip_level),
{
    let halved = base >> mip_level;
    if halved < 1 {
        1
    } else {
        halved
    }
}

/// Side of the square workgroups that filter one mip level.
pub const MIP_WORKGROUP_SIZE: u32 = 8;

/// The number of workgroups that cover `extent` texels: `extent` divided by
/// the workgroup side, rounded up.
pub open spec fn spec_workgroup_count(extent: u32) -> int {
    (extent + MIP_WORKGROUP_SIZE - 1) / (MIP_WORKGROUP_SIZE as int)
}

/// The workgroup counts, along x and y, that cover mip level `mip_level` of
/// a texture of the given size (each of the six faces is one more
/// dispatch along z).
pub fn mip_dispatch_size(base_width: u32, base_height: u32, mip_level: u32) -> (res: (u32, u32))
    requires
        mip_level < 32,
    ensures
        res.0 == spec_workgroup_count(spec_mip_extent(base_width, mip_level)),
        res.1 == spec_workgroup_count(spec_mip_extent(base_height, mip_level)),
{
    let w = mip_extent(base_width, mip_level);
    let h = mip_extent(base_height, mip_level);
    let gx = w / MIP_WORKGROUP_SIZE + if w % MIP_WORKGROUP_SIZE != 0 {
        1
    } else {
        0
    };
    let gy = h / MIP_WORKGROUP_SIZE + if h % MIP_WORKGROUP_SIZE != 0 {
        1
    } else {
        0
    };
    (gx, gy)
}

/// The parameter block of one mip filtering pass: the mip level, the number
/// of mip levels, the sampling type and the level's width and height, each a
/// little-endian `u32`.
pub open spec fn mip_params_encoding(
    mip_level: u32,
    max_mip_level: u32,
    sampling: SamplingType,
    width: u32,
    height: u32,
) -> Seq<u8> {
    spec_u32_to_le_bytes(mip_level) + spec_u32_to_le_bytes(max_mip_level) + spec_u32_to_le_bytes(
        sampling_code(sampling),
    ) + spec_u32_to_le_bytes(width) + spec_u32_to_le_bytes(height)
}

/// The parameter block of the filtering pass of mip level `mip_level` of a
/// texture of the given base size.
pub fn mip_params_bytes(
    mip_level: u32,
    max_mip_level: u32,
    base_width: u32,
    base_height: u32,
    sampling_type: &SamplingType,
) -> (res: Vec<u8>)
    requires
        mip_level < 32,
    ensures
        res@ == mip_params_encoding(
            mip_level,
            max_mip_level,
            *sampling_type,
            spec_mip_extent(base_width, mip_level),
            spec_mip_extent(base_height, mip_level),
        ),
{
    let width = mip_extent(base_width, mip_level);
    let height = mip_extent(base_height, mip_level);
    let mut bytes = u32_to_le_bytes(mip_level);
    let mut part = u32_to_le_bytes(max_mip_level);
    bytes.append(&mut part);
    let mut part = u32_to_le_bytes(sampling_type.to_u32());
    bytes.append(&mut part);
    let mut part = u32_to_le_bytes(width);
    bytes.append(&mut part);
    let mut part = u32_to_le_bytes(height);
    bytes.append(&mut part);
    bytes
}


/// The powers of two around a positive `n`: `2^log2(n) <= n < 2^(log2(n) + 1)`.
proof fn lemma_log2_bounds(n: int)
    requires
        n >= 1,
    ensures
        log(2, n) >= 0,
        pow(2, log(2, n) as nat) <= n < pow(2, (log(2, n) + 1) as nat),
    decreases n,
{
    lemma_log_nonnegative(2, n);
    if n < 2 {
        lemma_log0(2, n);
        reveal(pow);
        assert(pow(2, 0) == 1);
        assert(pow(2, 1) == 2 * pow(2, 0));
    } else {
        lemma_log_s(2, n);
        lemma_log2_bounds(n / 2);
        let k = log(2, n / 2);
        assert(log(2, n) == k + 1);
        reveal(pow);
        assert(pow(2, (k + 1) as nat) == 2 * pow(2, k as nat));
        assert(pow(2, (k + 2) as nat) == 2 * pow(2, (k + 1) as nat));
    }
}

/// A requested number of specular mip levels is kept as long as the
/// smallest of those levels still holds at least one texel, and otherwise
/// cut to the longest chain that does: the result `n` is at most the
/// request, its last level has a side of at least one texel
/// (`2^(n-1) <= cube_face_size`), and where it falls short of the request
/// one more level would have none (`2^n > cube_face_size`). Asking for
/// nothing is asking for seven levels.
pub proof fn mip_level_count_honours_request(cube_face_size: u32, requested: u32)
    requires
        cube_face_size > 0,
    ensures
        ({
            let n = spec_mip_level_count(cube_face_size, Some(requested));
            &&& 0 <= n <= requested
            &&& requested >= 1 ==> n >= 1 && pow(2, (n - 1) as nat) <= cube_face_size
            &&& n < requested ==> pow(2, n as nat) > cube_face_size
        }),
        (requested >= 1 && pow(2, (requested - 1) as nat) <= cube_face_size) ==> spec_mip_level_count(
            cube_face_size,
            Some(requested),
        ) == requested,
        spec_mip_level_count(cube_face_size, None) == spec_mip_level_count(cube_face_size, Some(7)),
{
    let size = cube_face_size as int;
    lemma_log2_bounds(size);
    let l = log(2, size);
    let n = spec_mip_level_count(cube_face_size, Some(requested));
    if requested >= 1 {
        assert(n >= 1);
        if n - 1 < l {
            lemma_pow_increases(2, (n - 1) as nat, l as nat);
        }
    }
    if requested >= 1 && pow(2, (requested - 1) as nat) <= size && requested > l + 1 {
        lemma_pow_increases(2, (l + 1) as nat, (requested - 1) as nat);
    }
}


/// Mip level `l` of a side `base` is `base / 2^l`, and never less than one
/// texel; the workgroups that cover `extent` texels are the fewest whose
/// combined side reaches `extent`.
pub proof fn mip_extent_halves_per_level(base: u32, mip_level: u32, extent: u32)
    requires
        mip_level < 32,
    ensures
        spec_mip_extent(base, mip_level) == if base as nat / pow2(mip_level as nat) >= 1 {
            base as nat / pow2(mip_level as nat)
        } else {
            1
        },
        spec_workgroup_count(extent) * MIP_WORKGROUP_SIZE >= extent,
        spec_workgroup_count(extent) == 0 || (spec_workgroup_count(extent) - 1) * MIP_WORKGROUP_SIZE
            < extent,
{
    lemma_u32_shr_is_div(base, mip_level);
    let e = extent as int;
    assert(((e + 7) / 8) * 8 >= e && (((e + 7) / 8) == 0 || ((e + 7) / 8 - 1) * 8 < e)) by (nonlinear_arith)
        requires
            e >= 0,
    {
        let q = (e + 7) / 8;
        assert(e + 7 == q * 8 + (e + 7) % 8);
    }
}


/// The parameter block of a mip pass is twenty bytes: five little-endian
/// `u32` fields that read back as the mip level, the number of mip levels,
/// the sampling code (0 importance sampling, 1 Gaussian blur, 2 box blur),
/// the width and the height, in that order.
pub proof fn mip_params_read_back(
    mip_level: u32,
    max_mip_level: u32,
    sampling: SamplingType,
    width: u32,
    height: u32,
)
    ensures
        ({
            let b = mip_params_encoding(mip_level, max_mip_level, sampling, width, height);
            &&& b.len() == 20
            &&& spec_u32_from_le_bytes(b.subrange(0, 4)) == mip_level
            &&& spec_u32_from_le_bytes(b.subrange(4, 8)) == max_mip_level
            &&& spec_u32_from_le_bytes(b.subrange(8, 12)) == match sampling {
                SamplingType::ImportanceSampling => 0u32,
                SamplingType::GaussianBlur => 1u32,
                SamplingType::BoxBlur => 2u32,
            }
            &&& spec_u32_from_le_bytes(b.subrange(12, 16)) == width
            &&& spec_u32_from_le_bytes(b.subrange(16, 20)) == height
        }),
{
    lemma_auto_spec_u32_to_from_le_bytes();
    let f0 = spec_u32_to_le_bytes(mip_level);
    let f1 = spec_u32_to_le_bytes(max_mip_level);
    let f2 = spec_u32_to_le_bytes(sampling_code(sampling));
    let f3 = spec_u32_to_le_bytes(width);
    let f4 = spec_u32_to_le_bytes(height);
    let b = mip_params_encoding(mip_level, max_mip_level, sampling, width, height);
    assert(b == f0 + f1 + f2 + f3 + f4);
    assert(b.subrange(0, 4) =~= f0);
    assert(b.subrange(4, 8) =~= f1);
    assert(b.subrange(8, 12) =~= f2);
    assert(b.subrange(12, 16) =~= f3);
    assert(b.subrange(16, 20) =~= f4);
}

} // verus!
