use vstd::prelude::*;
use vstd::bytes::{
    spec_u32_from_le_bytes, spec_u32_to_le_bytes, spec_u64_from_le_bytes, spec_u64_to_le_bytes,
    u32_from_le_bytes, u32_to_le_bytes, u64_from_le_bytes, u64_to_le_bytes,
    lemma_auto_spec_u32_to_from_le_bytes, lemma_auto_spec_u64_to_from_le_bytes,
};
use vstd::slice::{slice_subrange, slice_to_vec};

use crate::world_environment::error::{unexpected_eof, WorldEnvironmentError};

verus! {

/// The cached image-based-lighting data of a world environment.
#[derive(Debug)]
pub struct CacheFile {
    pub ibl_diffuse_data: Vec<u8>,
    pub ibl_specular_data: Vec<u8>,
    /// The number of mip levels generated for the specular texture.
    pub ibl_specular_mip_level_count: u32,
}

/// The byte layout of a cache file: the diffuse and specular data lengths
/// (little-endian `u64`), the specular mip level count (little-endian
/// `u32`), then the diffuse and the specular data.
pub open spec fn cache_encoding(diffuse: Seq<u8>, specular: Seq<u8>, mip_levels: u32) -> Seq<u8> {
    spec_u64_to_le_bytes(diffuse.len() as u64) + spec_u64_to_le_bytes(specular.len() as u64)
        + spec_u32_to_le_bytes(mip_levels) + diffuse + specular
}

/// Size of the header of a cache file, in bytes.
pub open spec fn cache_header_len() -> int {
    20
}

/// The diffuse data length announced by a cache file's header.
pub open spec fn header_diffuse_len(bytes: Seq<u8>) -> int {
    spec_u64_from_le_bytes(bytes.subrange(0, 8)) as int
}

/// The specular data length announced by a cache file's header.
pub open spec fn header_specular_len(bytes: Seq<u8>) -> int {
    spec_u64_from_le_bytes(bytes.subrange(8, 16)) as int
}

/// The bytes hold a complete cache file: a header and at least as much data
/// as the header announces (anything after it is ignored).
pub open spec fn is_complete_cache(bytes: Seq<u8>) -> bool {
    bytes.len() >= cache_header_len() && bytes.len() >= cache_header_len() + header_diffuse_len(
        bytes,
    ) + header_specular_len(bytes)
}

impl CacheFile {
    /// Whether both the diffuse and the specular data are present.
    pub fn validate(&self) -> (res: bool)
        ensures
            res == (self.ibl_diffuse_data.len() > 0 && self.ibl_specular_data.len() > 0),
    {
        !self.ibl_diffuse_data.is_empty() && !self.ibl_specular_data.is_empty()
    }

    /// Encodes the cache file as bytes.
    pub fn to_bytes(&self) -> (res: Vec<u8>)
        requires
            cache_header_len() + self.ibl_diffuse_data.len() + self.ibl_specular_data.len()
                <= isize::MAX,
        ensures
            res@ == cache_encoding(
                self.ibl_diffuse_data@,
                self.ibl_specular_data@,
                self.ibl_specular_mip_level_count,
            ),
    {
        let mut bytes: Vec<u8> = Vec::with_capacity(
            8 + 8 + 4 + self.ibl_diffuse_data.len() + self.ibl_specular_data.len(),
        );
        let mut d = u64_to_le_bytes(self.ibl_diffuse_data.len() as u64);
        bytes.append(&mut d);
        let mut s = u64_to_le_bytes(self.ibl_specular_data.len() as u64);
        bytes.append(&mut s);
        let mut m = u32_to_le_bytes(self.ibl_specular_mip_level_count);
        bytes.append(&mut m);
        bytes.extend_from_slice(self.ibl_diffuse_data.as_slice());
        bytes.extend_from_slice(self.ibl_specular_data.as_slice());
        bytes
    }

    /// Decodes a cache file from bytes.
    ///
    /// Fails with [`WorldEnvironmentError::IO`] (an unexpected end of data) when the bytes end
    /// before the header or before the data the header announces.
    pub fn from_bytes(bytes: &[u8]) -> (res: Result<CacheFile, WorldEnvironmentError>)
        ensures
            match res {
                Ok(c) => {
                    &&& is_complete_cache(bytes@)
                    &&& c.ibl_diffuse_data@ == bytes@.subrange(20, 20 + header_diffuse_len(bytes@))
                    &&& c.ibl_specular_data@ == bytes@.subrange(
                        20 + header_diffuse_len(bytes@),
                        20 + header_diffuse_len(bytes@) + header_specular_len(bytes@),
                    )
                    &&& c.ibl_specular_mip_level_count == spec_u32_from_le_bytes(
                        bytes@.subrange(16, 20),
                    )
                },
                Err(e) => !is_complete_cache(bytes@) && e is IO,
            },
    {
        if bytes.len() < 20 {
            return Err(WorldEnvironmentError::IO(unexpected_eof()));
        }
        let diffuse_size = u64_from_le_bytes(slice_subrange(bytes, 0, 8));
        let specular_size = u64_from_le_bytes(slice_subrange(bytes, 8, 16));
        let mip_levels = u32_from_le_bytes(slice_subrange(bytes, 16, 20));
        let available = (bytes.len() - 20) as u64;
        if diffuse_size > available || specular_size > available - diffuse_size {
            return Err(WorldEnvironmentError::IO(unexpected_eof()));
        }
        let d_end = 20 + diffuse_size as usize;
        let s_end = d_end + specular_size as usize;
        let ibl_diffuse_data = slice_to_vec(slice_subrange(bytes, 20, d_end));
        let ibl_specular_data = slice_to_vec(slice_subrange(bytes, d_end, s_end));
        Ok(CacheFile { ibl_diffuse_data, ibl_specular_data, ibl_specular_mip_level_count: mip_levels })
    }
}

/// Decoding the bytes of an encoded cache file gives back the data it was
/// encoded from.
pub proof fn cache_file_round_trip(diffuse: Seq<u8>, specular: Seq<u8>, mip_levels: u32)
    requires
        diffuse.len() <= u64::MAX,
        specular.len() <= u64::MAX,
    ensures
        ({
            let b = cache_encoding(diffuse, specular, mip_levels);
            &&& is_complete_cache(b)
            &&& header_diffuse_len(b) == diffuse.len()
            &&& header_specular_len(b) == specular.len()
            &&& spec_u32_from_le_bytes(b.subrange(16, 20)) == mip_levels
            &&& b.subrange(20, 20 + diffuse.len() as int) == diffuse
            &&& b.subrange(20 + diffuse.len() as int, 20 + diffuse.len() as int + specular.len() as int) == specular
        }),
{
    lemma_auto_spec_u64_to_from_le_bytes();
    lemma_auto_spec_u32_to_from_le_bytes();
    let b = cache_encoding(diffuse, specular, mip_levels);
    let dl = spec_u64_to_le_bytes(diffuse.len() as u64);
    let sl = spec_u64_to_le_bytes(specular.len() as u64);
    let ml = spec_u32_to_le_bytes(mip_levels);
    assert(b.subrange(0, 8) =~= dl);
    assert(b.subrange(8, 16) =~= sl);
    assert(b.subrange(16, 20) =~= ml);
    assert(b.subrange(20, 20 + diffuse.len() as int) =~= diffuse);
    assert(b.subrange(20 + diffuse.len() as int, 20 + diffuse.len() as int + specular.len() as int) =~= specular);
}

/// Bytes after an encoded cache file are ignored by decoding, and every
/// proper prefix of an encoded cache file is incomplete, so decoding it
/// fails with an unexpected end of data.
pub proof fn cache_file_trailing_and_truncated_bytes(
    diffuse: Seq<u8>,
    specular: Seq<u8>,
    mip_levels: u32,
    trailing: Seq<u8>,
    k: int,
)
    requires
        diffuse.len() <= u64::MAX,
        specular.len() <= u64::MAX,
        0 <= k < cache_encoding(diffuse, specular, mip_levels).len(),
    ensures
        ({
            let b = cache_encoding(diffuse, specular, mip_levels);
            let e = b + trailing;
            &&& is_complete_cache(e)
            &&& header_diffuse_len(e) == diffuse.len()
            &&& header_specular_len(e) == specular.len()
            &&& spec_u32_from_le_bytes(e.subrange(16, 20)) == mip_levels
            &&& e.subrange(20, 20 + diffuse.len() as int) == diffuse
            &&& e.subrange(20 + diffuse.len() as int, 20 + diffuse.len() as int + specular.len() as int) == specular
            &&& !is_complete_cache(b.subrange(0, k))
        }),
{
    cache_file_round_trip(diffuse, specular, mip_levels);
    lemma_auto_spec_u64_to_from_le_bytes();
    lemma_auto_spec_u32_to_from_le_bytes();
    let b = cache_encoding(diffuse, specular, mip_levels);
    let e = b + trailing;
    assert(b.len() == 20 + diffuse.len() + specular.len());
    assert(e.subrange(0, 8) =~= b.subrange(0, 8));
    assert(e.subrange(8, 16) =~= b.subrange(8, 16));
    assert(e.subrange(16, 20) =~= b.subrange(16, 20));
    assert(e.subrange(20, 20 + diffuse.len() as int) =~= b.subrange(20, 20 + diffuse.len() as int));
    assert(e.subrange(20 + diffuse.len() as int, 20 + diffuse.len() as int + specular.len() as int)
        =~= b.subrange(20 + diffuse.len() as int, 20 + diffuse.len() as int + specular.len() as int));
    let t = b.subrange(0, k);
    if k >= 20 {
        assert(t.subrange(0, 8) =~= b.subrange(0, 8));
        assert(t.subrange(8, 16) =~= b.subrange(8, 16));
    }
}

} // verus!
