//! Closed registries of embedding providers, embedding models and qdrant
//! clusters, with the support matrix, the per-model embedding size, and the
//! per-cluster naming prefixes.

use vstd::prelude::*;

verus! {

/// An embedding provider known to the system.
#[derive(Clone, Copy, Debug, PartialEq, Eq, Structural)]
pub enum ProviderId {
    OpenAi,
    Mistral,
}

/// An embedding model known to the system.
#[derive(Clone, Copy, Debug, PartialEq, Eq, Structural)]
pub enum EmbedderModel {
    TextEmbeddingAda002,
    TextEmbedding3Large1536,
    MistralEmbed,
}

/// A physically distinct qdrant cluster.
#[derive(Clone, Copy, Debug, PartialEq, Eq, Structural)]
pub enum Cluster {
    Main0,
    Dedicated0,
}

/// The name a provider goes by in collection names and messages.
pub open spec fn provider_chars(p: ProviderId) -> Seq<char> {
    match p {
        ProviderId::OpenAi => "openai"@,
        ProviderId::Mistral => "mistral"@,
    }
}

/// The name a model goes by in collection names and messages.
pub open spec fn model_chars(m: EmbedderModel) -> Seq<char> {
    match m {
        EmbedderModel::TextEmbeddingAda002 => "text-embedding-ada-002"@,
        EmbedderModel::TextEmbedding3Large1536 => "text-embedding-3-large-1536"@,
        EmbedderModel::MistralEmbed => "mistral-embed"@,
    }
}

/// The name a cluster goes by in messages.
pub open spec fn cluster_chars(c: Cluster) -> Seq<char> {
    match c {
        Cluster::Main0 => "main-0"@,
        Cluster::Dedicated0 => "dedicated-0"@,
    }
}

/// The per-cluster prefix of every collection name.
pub open spec fn collection_prefix_chars(c: Cluster) -> Seq<char> {
    match c {
        Cluster::Main0 => "c0"@,
        Cluster::Dedicated0 => "c1"@,
    }
}

/// The per-cluster prefix of every shard-key name.
pub open spec fn shard_key_prefix_chars(c: Cluster) -> Seq<char> {
    match c {
        Cluster::Main0 => "sk0"@,
        Cluster::Dedicated0 => "sk1"@,
    }
}

/// The support matrix: which models each provider serves.
pub open spec fn spec_is_model_supported(p: ProviderId, m: EmbedderModel) -> bool {
    match (p, m) {
        (ProviderId::OpenAi, EmbedderModel::TextEmbeddingAda002) => true,
        (ProviderId::OpenAi, EmbedderModel::TextEmbedding3Large1536) => true,
        (ProviderId::Mistral, EmbedderModel::MistralEmbed) => true,
        _ => false,
    }
}

/// The fixed output dimensionality of each model.
pub open spec fn spec_embedding_size(m: EmbedderModel) -> u64 {
    match m {
        EmbedderModel::TextEmbeddingAda002 => 1536,
        EmbedderModel::TextEmbedding3Large1536 => 1536,
        EmbedderModel::MistralEmbed => 1024,
    }
}

pub fn provider_str(p: ProviderId) -> (r: &'static str)
    ensures
        r@ == provider_chars(p),
{
    match p {
        ProviderId::OpenAi => "openai",
        ProviderId::Mistral => "mistral",
    }
}

pub fn model_str(m: EmbedderModel) -> (r: &'static str)
    ensures
        r@ == model_chars(m),
{
    match m {
        EmbedderModel::TextEmbeddingAda002 => "text-embedding-ada-002",
        EmbedderModel::TextEmbedding3Large1536 => "text-embedding-3-large-1536",
        EmbedderModel::MistralEmbed => "mistral-embed",
    }
}

pub fn cluster_str(c: Cluster) -> (r: &'static str)
    ensures
        r@ == cluster_chars(c),
{
    match c {
        Cluster::Main0 => "main-0",
        Cluster::Dedicated0 => "dedicated-0",
    }
}

pub fn collection_prefix(c: Cluster) -> (r: &'static str)
    ensures
        r@ == collection_prefix_chars(c),
{
    match c {
        Cluster::Main0 => "c0",
        Cluster::Dedicated0 => "c1",
    }
}

pub fn shard_key_prefix(c: Cluster) -> (r: &'static str)
    ensures
        r@ == shard_key_prefix_chars(c),
{
    match c {
        Cluster::Main0 => "sk0",
        Cluster::Dedicated0 => "sk1",
    }
}

/// Whether the registry supports the (provider, model) pair.  The workflow
/// consults this before any network contact is made.
pub fn is_model_supported(p: ProviderId, m: EmbedderModel) -> (r: bool)
    ensures
        r == spec_is_model_supported(p, m),
{
    match (p, m) {
        (ProviderId::OpenAi, EmbedderModel::TextEmbeddingAda002) => true,
        (ProviderId::OpenAi, EmbedderModel::TextEmbedding3Large1536) => true,
        (ProviderId::Mistral, EmbedderModel::MistralEmbed) => true,
        _ => false,
    }
}

/// The embedding size the collection's vector geometry is built for.
pub fn embedding_size(m: EmbedderModel) -> (r: u64)
    ensures
        r == spec_embedding_size(m),
{
    match m {
        EmbedderModel::TextEmbeddingAda002 => 1536,
        EmbedderModel::TextEmbedding3Large1536 => 1536,
        EmbedderModel::MistralEmbed => 1024,
    }
}

} // verus!
