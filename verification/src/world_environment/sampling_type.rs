use vstd::prelude::*;
use vstd::bytes::{spec_u32_to_le_bytes, u32_to_le_bytes};

verus! {

/// How the environment is sampled when the image-based lighting is built.
#[derive(Debug, Clone, Copy, PartialEq, Eq, Structural, Hash)]
pub enum SamplingType {
    ImportanceSampling,
    GaussianBlur,
    BoxBlur,
}

/// The number that identifies a sampling type in GPU parameters.
pub open spec fn sampling_code(t: SamplingType) -> u32 {
    match t {
        SamplingType::ImportanceSampling => 0,
        SamplingType::GaussianBlur => 1,
        SamplingType::BoxBlur => 2,
    }
}

impl SamplingType {
    /// The number that identifies this sampling type.
    pub fn to_u32(&self) -> (res: u32)
        ensures
            res == sampling_code(*self),
    {
        match self {
            SamplingType::ImportanceSampling => 0,
            SamplingType::GaussianBlur => 1,
            SamplingType::BoxBlur => 2,
        }
    }

    /// The little-endian bytes of [`SamplingType::to_u32`].
    pub fn to_le_bytes(&self) -> (res: [u8; 4])
        ensures
            res@ == spec_u32_to_le_bytes(sampling_code(*self)),
    {
        let v = u32_to_le_bytes(self.to_u32());
        let res: [u8; 4] = [v[0], v[1], v[2], v[3]];
        assert(res@ =~= v@);
        res
    }
}

} // verus!
