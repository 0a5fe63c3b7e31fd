//! The fixed collection-creation policy and the request values the workflow
//! submits.
//!
//! Every policy choice is a named constant here; the request carries plain
//! values only.  The quantization quantile is held in integer percent, since
//! the creation call takes it as a fraction of one.

use vstd::prelude::*;

use crate::names::collection_name_chars;
use crate::names::build_collection_name;
use crate::registry::Cluster;
use crate::registry::EmbedderModel;
use crate::registry::ProviderId;
use crate::registry::collection_prefix;
use crate::registry::collection_prefix_chars;
use crate::registry::embedding_size;
use crate::registry::spec_embedding_size;

verus! {

/// How many shard keys every collection is partitioned into.  Downstream
/// document routing assumes this same count; changing one side without the
/// other breaks routing.
pub const SHARD_KEY_COUNT: u64 = 24;

/// Collection-level HNSW graph density; zero defers per-segment indexing.
pub const HNSW_M: u64 = 0;

/// Payload-index HNSW graph density.
pub const HNSW_PAYLOAD_M: u64 = 16;

/// Segment size above which storage is memory-mapped.
pub const MEMMAP_THRESHOLD: u64 = 16384;

/// Quantization calibration percentile, in percent.
pub const QUANTILE_PERCENT: u8 = 99;

/// Physical shards per collection.
pub const SHARD_NUMBER: u32 = 2;

/// Replicas per shard.
pub const REPLICATION_FACTOR: u32 = 2;

/// Replicas that must acknowledge a write.
pub const WRITE_CONSISTENCY_FACTOR: u32 = 1;

/// The distance metric of the collection's vector index.
#[derive(Clone, Copy, Debug, PartialEq, Eq, Structural)]
pub enum Distance {
    Cosine,
    Euclid,
    Dot,
    Manhattan,
}

/// The precision vectors are quantized to.
#[derive(Clone, Copy, Debug, PartialEq, Eq, Structural)]
pub enum QuantizationKind {
    Int8,
}

/// How documents are routed to shards.
#[derive(Clone, Copy, Debug, PartialEq, Eq, Structural)]
pub enum ShardingMethod {
    Auto,
    Custom,
}

/// The full parameter set of one collection-creation request.
pub struct CreateCollectionParams {
    /// Derived collection name, unique per (cluster, provider, model).
    pub collection_name: String,
    /// Vector dimensionality, from the model's embedding size.
    pub vector_size: u64,
    pub distance: Distance,
    /// Whether full-precision vectors stay on disk.
    pub vectors_on_disk: bool,
    pub hnsw_m: u64,
    pub hnsw_payload_m: u64,
    pub memmap_threshold: u64,
    pub quantization_kind: QuantizationKind,
    /// Calibration percentile of the quantizer, in percent.
    pub quantile_percent: u8,
    /// Whether quantized vectors stay fully resident in memory.
    pub quantization_always_ram: bool,
    pub on_disk_payload: bool,
    pub sharding_method: ShardingMethod,
    pub shard_number: u32,
    pub replication_factor: u32,
    pub write_consistency_factor: u32,
}

/// Builds the creation request for a (provider, model) pair on a cluster:
/// the derived name, the model's vector size, and the fixed policy.
pub fn build_create_collection_params(
    p: ProviderId,
    m: EmbedderModel,
    c: Cluster,
) -> (r: CreateCollectionParams)
    ensures
        r.collection_name@ == collection_name_chars(collection_prefix_chars(c), p, m),
        r.vector_size == spec_embedding_size(m),
        r.distance == Distance::Cosine,
        r.vectors_on_disk,
        r.hnsw_m == HNSW_M,
        r.hnsw_payload_m == HNSW_PAYLOAD_M,
        r.memmap_threshold == MEMMAP_THRESHOLD,
        r.quantization_kind == QuantizationKind::Int8,
        r.quantile_percent == QUANTILE_PERCENT,
        r.quantization_always_ram,
        r.on_disk_payload,
        r.sharding_method == ShardingMethod::Custom,
        r.shard_number == SHARD_NUMBER,
        r.replication_factor == REPLICATION_FACTOR,
        r.write_consistency_factor == WRITE_CONSISTENCY_FACTOR,
{
    CreateCollectionParams {
        collection_name: build_collection_name(collection_prefix(c), p, m),
        vector_size: embedding_size(m),
        distance: Distance::Cosine,
        vectors_on_disk: true,
        hnsw_m: HNSW_M,
        hnsw_payload_m: HNSW_PAYLOAD_M,
        memmap_threshold: MEMMAP_THRESHOLD,
        quantization_kind: QuantizationKind::Int8,
        quantile_percent: QUANTILE_PERCENT,
        quantization_always_ram: true,
        on_disk_payload: true,
        sharding_method: ShardingMethod::Custom,
        shard_number: SHARD_NUMBER,
        replication_factor: REPLICATION_FACTOR,
        write_consistency_factor: WRITE_CONSISTENCY_FACTOR,
    }
}

} // verus!
