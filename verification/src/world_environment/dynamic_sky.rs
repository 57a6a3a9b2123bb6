//! Decisions of a dynamic (in-place updated) generated sky.
//!
//! A generated sky marked dynamic keeps its GPU textures and is updated in
//! place whenever its descriptor changes: the base level and the diffuse
//! irradiance every time, and one specular mip level per update, round
//! robin.
use vstd::prelude::*;

use crate::world_environment::mip::{calculate_specular_mip_level_count, spec_mip_level_count};
use crate::world_environment::sampling_type::SamplingType;

verus! {

/// What a dynamic sky was built with.
#[derive(Debug, Clone, Copy, PartialEq, Eq, Structural)]
pub struct DynamicSkyKey {
    /// Side of the cube faces, in texels.
    pub cube_face_size: u32,
    /// Number of specular mip levels.
    pub specular_mip_level_count: u32,
    /// How the specular levels are filtered.
    pub sampling_type: SamplingType,
}

/// What a generated-sky descriptor asks for, apart from the sky parameters.
#[derive(Debug, Clone, Copy, PartialEq, Eq, Structural)]
pub struct GeneratedSkyRequest {
    /// Side of the cube faces, in texels.
    pub cube_face_size: u32,
    /// How the specular levels are filtered.
    pub sampling_type: SamplingType,
    /// The requested number of specular mip levels, if any.
    pub custom_specular_mip_level_count: Option<u32>,
    /// Whether the sky is to be updated in place.
    pub dynamic: bool,
}

/// Whether an environment built as `state` can be updated in place to the
/// descriptor `request` (`None` for a descriptor that is not a generated
/// sky): only a dynamic environment, to a dynamic generated sky of the same
/// face size, sampling type and resulting mip level count.
pub open spec fn spec_can_update(state: Option<DynamicSkyKey>, request: Option<GeneratedSkyRequest>) -> bool {
    match (state, request) {
        (Some(s), Some(r)) => r.dynamic && s.cube_face_size == r.cube_face_size && s.sampling_type
            == r.sampling_type && s.specular_mip_level_count == spec_mip_level_count(
            r.cube_face_size,
            r.custom_specular_mip_level_count,
        ),
        _ => false,
    }
}

/// Whether an environment built as `state` (`None` unless it is a dynamic
/// sky) can be updated in place to the descriptor `request` (`None` unless
/// it is a generated sky).
pub fn can_update_dynamic_sky(
    state: Option<&DynamicSkyKey>,
    request: Option<&GeneratedSkyRequest>,
) -> (res: bool)
    requires
        state matches Some(s) ==> s.cube_face_size > 0,
    ensures
        res == spec_can_update(
            match state {
                Some(s) => Some(*s),
                None => None,
            },
            match request {
                Some(r) => Some(*r),
                None => None,
            },
        ),
{
    match state {
        None => false,
        Some(s) => match request {
            Some(r) => {
                if !r.dynamic {
                    false
                } else {
                    s.cube_face_size == r.cube_face_size && s.sampling_type == r.sampling_type
                        && s.specular_mip_level_count == calculate_specular_mip_level_count(
                        r.cube_face_size,
                        r.custom_specular_mip_level_count,
                    )
                }
            },
            None => false,
        },
    }
}

/// An environment can be updated in place only to a dynamic generated sky
/// whose textures it already has: the same cube face size, the same sampling
/// type and as many specular mip levels as that sky is built with. Any other
/// change, such as a new face size, needs a rebuild; so does a descriptor
/// that is not a dynamic generated sky, and an environment that was not
/// built as one.
pub proof fn in_place_update_keeps_textures(
    state: Option<DynamicSkyKey>,
    request: Option<GeneratedSkyRequest>,
)
    ensures
        spec_can_update(state, request) <==> {
            &&& state is Some
            &&& request is Some
            &&& request.unwrap().dynamic
            &&& state.unwrap().cube_face_size == request.unwrap().cube_face_size
            &&& state.unwrap().sampling_type == request.unwrap().sampling_type
            &&& state.unwrap().specular_mip_level_count as int == spec_mip_level_count(
                request.unwrap().cube_face_size,
                request.unwrap().custom_specular_mip_level_count,
            )
        },
        state is Some && request is Some && state.unwrap().cube_face_size != request.unwrap().cube_face_size
            ==> !spec_can_update(state, request),
        state is Some && request is Some && state.unwrap().sampling_type != request.unwrap().sampling_type
            ==> !spec_can_update(state, request),
{
}

/// The specular mip level that update number `counter` convolves: levels
/// `1..mip_count` in turn (the base level is rewritten on every update).
pub open spec fn scheduled_mip(counter: u32, mip_count: u32) -> int {
    1 + (counter as int) % ((mip_count - 1) as int)
}

/// Picks the specular mip level to convolve on this update and advances the
/// round-robin counter (wrapping at `u32::MAX`); with a single mip level
/// there is nothing to convolve and the counter stays.
pub fn next_dynamic_mip(counter: u32, mip_count: u32) -> (res: (Option<u32>, u32))
    ensures
        mip_count > 1 ==> res.0 == Some(scheduled_mip(counter, mip_count) as u32) && res.1 == (
        if counter == u32::MAX {
            0
        } else {
            counter + 1
        }),
        mip_count <= 1 ==> res.0 is None && res.1 == counter,
{
    if mip_count > 1 {
        let level = 1 + counter % (mip_count - 1);
        let next = counter.wrapping_add(1);
        (Some(level), next)
    } else {
        (None, counter)
    }
}

/// Round robin: any `mip_count - 1` consecutive updates (as long as the
/// counter does not wrap) convolve every specular mip level `1..mip_count`.
pub proof fn dynamic_mips_all_refreshed(counter: u32, mip_count: u32, level: int)
    requires
        mip_count > 1,
        1 <= level < mip_count,
        counter + mip_count - 1 <= u32::MAX,
    ensures
        exists|k: int| 0 <= k < mip_count - 1 && #[trigger] scheduled_mip((counter + k) as u32, mip_count) == level,
{
    let m = (mip_count - 1) as int;
    let r = counter as int % m;
    let k = if level - 1 >= r {
        level - 1 - r
    } else {
        level - 1 - r + m
    };
    assert(0 <= k < m);
    assert(((counter + k) as u32) as int == counter + k);
    assert((counter as int + k) % m == level - 1) by (nonlinear_arith)
        requires
            m > 0,
            r == counter as int % m,
            0 <= level - 1 < m,
            k == if level - 1 >= r {
                level - 1 - r
            } else {
                level - 1 - r + m
            },
            counter >= 0,
    {
        let q = counter as int / m;
        assert(counter as int == q * m + r);
        assert(0 <= r < m);
        if level - 1 >= r {
            assert(counter as int + k == q * m + (level - 1));
        } else {
            assert(counter as int + k == (q + 1) * m + (level - 1));
        }
    }
    assert(scheduled_mip((counter + k) as u32, mip_count) == level);
}


/// The round robin starts at level 1, stays within `1..mip_count`, and each
/// update takes the next level, going back to level 1 after the last one.
pub proof fn dynamic_mip_round_robin(counter: u32, mip_count: u32)
    requires
        mip_count > 1,
        counter < u32::MAX,
    ensures
        scheduled_mip(0, mip_count) == 1,
        1 <= scheduled_mip(counter, mip_count) < mip_count,
        scheduled_mip((counter + 1) as u32, mip_count) == if scheduled_mip(counter, mip_count) == mip_count - 1 {
            1
        } else {
            scheduled_mip(counter, mip_count) + 1
        },
{
    let m = (mip_count - 1) as int;
    let c = counter as int;
    assert(0int % m == 0) by (nonlinear_arith)
        requires
            m > 0,
    ;
    assert(0 <= c % m < m) by (nonlinear_arith)
        requires
            m > 0,
    ;
    assert((c + 1) % m == if c % m == m - 1 {
        0
    } else {
        c % m + 1
    }) by (nonlinear_arith)
        requires
            m > 0,
            c >= 0,
    {
        let q = c / m;
        let r = c % m;
        assert(c == q * m + r);
        if r == m - 1 {
            assert(c + 1 == (q + 1) * m);
        } else {
            assert(c + 1 == q * m + (r + 1));
        }
    }
    assert(((counter + 1) as u32) as int == c + 1);
}

} // verus!
