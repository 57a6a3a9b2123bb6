//! Buffer layouts and dispatch sizes of GPU instance culling.
//!
//! Culling runs in two compute passes: the first tests every instance of
//! every model against the view frustum and compacts the visible ones, the
//! second writes one indirect draw command per model. This module computes
//! the sizes and byte layouts those passes use.
use vstd::prelude::*;
use vstd::bytes::{spec_u32_to_le_bytes, u32_to_le_bytes};

verus! {

/// Bytes of one indirect indexed draw command: index count, instance count,
/// first index, base vertex and first instance, each four bytes.
pub const INDIRECT_ARGS_SIZE: u64 = 20;

/// Bytes of one instance transform (a 4×4 matrix of `f32`).
pub const INSTANCE_MATRIX_SIZE: u64 = 64;

/// Instances tested by one workgroup of the cull pass.
pub const CULL_WORKGROUP_SIZE: u32 = 64;

/// The indirect draw command of one model, as written by the CPU: its index
/// count, instance count, first index and base vertex (as the bits of an
/// `i32`), and first instance 0, since the compacted instances keep the
/// order of the input.
pub open spec fn indirect_args_of(p: (u32, u32, u32, i32, u32)) -> Seq<u8> {
    spec_u32_to_le_bytes(p.0) + spec_u32_to_le_bytes(p.1) + spec_u32_to_le_bytes(p.2)
        + spec_u32_to_le_bytes(p.3 as u32) + spec_u32_to_le_bytes(0)
}

/// The indirect draw commands of the models, one after the other.
pub open spec fn indirect_args_encoding(params: Seq<(u32, u32, u32, i32, u32)>) -> Seq<u8>
    decreases params.len(),
{
    if params.len() == 0 {
        Seq::empty()
    } else {
        indirect_args_encoding(params.drop_last()) + indirect_args_of(params.last())
    }
}

/// Encodes the indirect draw commands of the models, given per model as
/// `(index_count, instance_count, first_index, base_vertex, first_instance)`.
pub fn encode_indirect_args(model_params: &[(u32, u32, u32, i32, u32)]) -> (res: Vec<u8>)
    ensures
        res@ == indirect_args_encoding(model_params@),
{
    let mut args: Vec<u8> = Vec::new();
    let mut i: usize = 0;
    while i < model_params.len()
        invariant
            i <= model_params.len(),
            args@ == indirect_args_encoding(model_params@.take(i as int)),
        decreases model_params.len() - i,
    {
        proof {
            assert(model_params@.take(i + 1).drop_last() =~= model_params@.take(i as int));
        }
        let (index_count, instance_count, first_index, base_vertex, _first_instance) =
            model_params[i];
        let ghost before = args@;
        let mut part = u32_to_le_bytes(index_count);
        args.append(&mut part);
        let mut part = u32_to_le_bytes(instance_count);
        args.append(&mut part);
        let mut part = u32_to_le_bytes(first_index);
        args.append(&mut part);
        let mut part = u32_to_le_bytes(base_vertex as u32);
        args.append(&mut part);
        let mut part = u32_to_le_bytes(0);
        args.append(&mut part);
        proof {
            assert(args@ =~= before + indirect_args_of(model_params@[i as int]));
        }
        i = i + 1;
    }
    proof {
        assert(model_params@.take(model_params.len() as int) =~= model_params@);
    }
    args
}

/// The number of instance bytes uploaded to the compacted buffer: the
/// buffer's capacity (`max_instances` matrices) or the data at hand,
/// whichever is smaller.
pub fn compacted_upload_len(max_instances: u32, available: usize) -> (res: u64)
    ensures
        res == if max_instances * INSTANCE_MATRIX_SIZE <= available {
            max_instances * INSTANCE_MATRIX_SIZE
        } else {
            available as int
        },
{
    let capacity = max_instances as u64 * INSTANCE_MATRIX_SIZE;
    let available = available as u64;
    if capacity <= available {
        capacity
    } else {
        available
    }
}

/// The workgroup counts `(x, y, z)` of the two cull passes for `num_models`
/// models of at most `max_inst_per_model` instances: the cull pass covers
/// the instances of a model along x (rounded up to whole workgroups) and the
/// models along y; the finalize pass runs one workgroup per model. Every
/// count is at least one.
pub fn cull_dispatch_sizes(num_models: u32, max_inst_per_model: u32) -> (res: (
    (u32, u32, u32),
    (u32, u32, u32),
))
    ensures
        ({
            let groups = (max_inst_per_model + CULL_WORKGROUP_SIZE - 1) / (CULL_WORKGROUP_SIZE as int);
            let models: int = if num_models == 0 { 1 } else { num_models as int };
            &&& res.0 == (if groups == 0 { 1u32 } else { groups as u32 }, models as u32, 1u32)
            &&& res.1 == (models as u32, 1u32, 1u32)
        }),
{
    let groups = max_inst_per_model / CULL_WORKGROUP_SIZE + if max_inst_per_model
        % CULL_WORKGROUP_SIZE != 0 {
        1
    } else {
        0
    };
    let groups = if groups == 0 {
        1
    } else {
        groups
    };
    let models = if num_models == 0 {
        1
    } else {
        num_models
    };
    ((groups, models, 1), (models, 1, 1))
}

/// Byte layout of the staging buffer that reads back the cull state of
/// `num_models` models: the per-model visible counters, the indirect
/// arguments the draw consumes, the first instance matrix, then a copy of
/// the indirect arguments and of the matrix as the compute pass stored them.
#[derive(Debug, Clone, Copy, PartialEq, Eq, Structural)]
pub struct CullReadbackLayout {
    /// Bytes of the visible counters (four per model, at least four).
    pub counters_bytes: u64,
    /// Bytes of the indirect arguments.
    pub indirect_bytes: u64,
    /// Bytes of one instance matrix.
    pub matrix_bytes: u64,
    /// Offset of the stored copy of the indirect arguments.
    pub args_probe_offset: u64,
    /// Offset of the stored copy of the matrix.
    pub matrix_probe_offset: u64,
    /// Size of the whole staging buffer.
    pub total: u64,
}

/// The staging layout for reading back the cull state of `num_models`
/// models.
pub fn cull_readback_layout(num_models: u32) -> (res: CullReadbackLayout)
    ensures
        res.counters_bytes == if num_models == 0 { 4 } else { 4 * num_models },
        res.indirect_bytes == INDIRECT_ARGS_SIZE * num_models,
        res.matrix_bytes == INSTANCE_MATRIX_SIZE,
        res.args_probe_offset == res.counters_bytes + res.indirect_bytes + res.matrix_bytes,
        res.matrix_probe_offset == res.args_probe_offset + res.indirect_bytes,
        res.total == res.matrix_probe_offset + res.matrix_bytes,
{
    let counters = num_models as u64 * 4;
    let counters_bytes = if counters < 4 {
        4
    } else {
        counters
    };
    let indirect_bytes = num_models as u64 * INDIRECT_ARGS_SIZE;
    let matrix_bytes = INSTANCE_MATRIX_SIZE;
    let args_probe_offset = counters_bytes + indirect_bytes + matrix_bytes;
    let matrix_probe_offset = args_probe_offset + indirect_bytes;
    let total = matrix_probe_offset + matrix_bytes;
    CullReadbackLayout {
        counters_bytes,
        indirect_bytes,
        matrix_bytes,
        args_probe_offset,
        matrix_probe_offset,
        total,
    }
}

} // verus!
