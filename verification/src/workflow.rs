//! The two-phase provisioning workflow as a state machine.
//!
//! The machine decides; the caller acts.  `Workflow::new` refuses an
//! unsupported (provider, model) pair before any state exists.  From then on
//! the caller asks for the prompt text and the request parameters, performs
//! the confirmation prompt and the network calls, and feeds each outcome
//! back through [`Workflow::step`], which answers with the next mutating
//! call to issue, if any.  The lemmas at the bottom characterize the exact
//! call traces the machine can produce.

use vstd::prelude::*;

use crate::config::CreateCollectionParams;
use crate::config::SHARD_KEY_COUNT;
use crate::config::build_create_collection_params;
use crate::names::build_collection_name;
use crate::names::build_shard_key_name;
use crate::names::dec_chars;
use crate::names::push_decimal;
use crate::names::collection_name_chars;
use crate::names::shard_key_name_chars;
use crate::registry::Cluster;
use crate::registry::EmbedderModel;
use crate::registry::ProviderId;
use crate::registry::collection_prefix;
use crate::registry::collection_prefix_chars;
use crate::registry::shard_key_prefix;
use crate::registry::shard_key_prefix_chars;
use crate::registry::cluster_chars;
use crate::registry::cluster_str;
use crate::registry::spec_is_model_supported;
use crate::registry::is_model_supported;
use vstd::string::StringExecFns;

verus! {

/// Why a run stopped short of full success.
#[derive(Clone, Copy, Debug, PartialEq, Eq, Structural)]
pub enum FailReason {
    /// The registry does not support the (provider, model) pair; no cluster
    /// contact was made.
    Unsupported,
    /// The operator declined the confirmation; no mutation was attempted.
    Aborted,
    /// The confirmation prompt itself could not be completed.
    PromptFailed,
    /// The collection-creation exchange failed at the transport level.
    CollectionCallFailed,
    /// The collection-creation response carried a false result flag.
    CollectionNotCreated,
    /// The shard-key exchange at this index failed at the transport level.
    ShardKeyCallFailed(u64),
    /// The shard-key response at this index carried a false result flag.
    ShardKeyNotCreated(u64),
}

/// Where the workflow stands: which exchange is outstanding, or how it ended.
#[derive(Clone, Copy, Debug, PartialEq, Eq, Structural)]
pub enum Phase {
    /// The confirmation prompt is outstanding.
    Confirming,
    /// The collection-creation call is outstanding.
    CreatingCollection,
    /// The shard-key call at `index` is outstanding; keys below it exist.
    CreatingShardKey { index: u64 },
    /// Collection and all shard keys are created.
    Complete,
    Failed(FailReason),
}

/// The outcome of the outstanding exchange, fed back into the machine: the
/// boolean the prompt or the response carried, or a transport-level failure.
#[derive(Clone, Copy, Debug, PartialEq, Eq, Structural)]
pub enum Reply {
    Flag(bool),
    TransportFailed,
}

/// A mutating call the caller must issue next.
#[derive(Clone, Copy, Debug, PartialEq, Eq, Structural)]
pub enum Action {
    CreateCollection,
    CreateShardKey { index: u64 },
}

pub open spec fn phase_is_terminal(p: Phase) -> bool {
    match p {
        Phase::Complete => true,
        Phase::Failed(_) => true,
        _ => false,
    }
}

/// The phase after one outcome is absorbed.  Terminal phases absorb every
/// reply unchanged.
pub open spec fn step_phase(p: Phase, r: Reply) -> Phase {
    match p {
        Phase::Confirming => match r {
            Reply::Flag(true) => Phase::CreatingCollection,
            Reply::Flag(false) => Phase::Failed(FailReason::Aborted),
            Reply::TransportFailed => Phase::Failed(FailReason::PromptFailed),
        },
        Phase::CreatingCollection => match r {
            Reply::Flag(true) => Phase::CreatingShardKey { index: 0 },
            Reply::Flag(false) => Phase::Failed(FailReason::CollectionNotCreated),
            Reply::TransportFailed => Phase::Failed(FailReason::CollectionCallFailed),
        },
        Phase::CreatingShardKey { index } => match r {
            Reply::Flag(true) => if index + 1 < SHARD_KEY_COUNT {
                Phase::CreatingShardKey { index: (index + 1) as u64 }
            } else {
                Phase::Complete
            },
            Reply::Flag(false) => Phase::Failed(FailReason::ShardKeyNotCreated(index)),
            Reply::TransportFailed => Phase::Failed(FailReason::ShardKeyCallFailed(index)),
        },
        _ => p,
    }
}

/// The call the caller must issue after one outcome is absorbed, if any.
pub open spec fn step_action(p: Phase, r: Reply) -> Option<Action> {
    match p {
        Phase::Confirming => match r {
            Reply::Flag(true) => Some(Action::CreateCollection),
            _ => None,
        },
        Phase::CreatingCollection => match r {
            Reply::Flag(true) => Some(Action::CreateShardKey { index: 0 }),
            _ => None,
        },
        Phase::CreatingShardKey { index } => match r {
            Reply::Flag(true) => if index + 1 < SHARD_KEY_COUNT {
                Some(Action::CreateShardKey { index: (index + 1) as u64 })
            } else {
                None
            },
            _ => None,
        },
        _ => None,
    }
}

/// One provisioning run against one cluster.
pub struct Workflow {
    pub provider: ProviderId,
    pub model: EmbedderModel,
    pub cluster: Cluster,
    pub phase: Phase,
}

impl Workflow {
    /// A shard-key index the machine waits on is always a real one.
    pub open spec fn wf(self) -> bool {
        match self.phase {
            Phase::CreatingShardKey { index } => index < SHARD_KEY_COUNT,
            _ => true,
        }
    }

    /// Starts a run, or refuses it before any state exists if the registry
    /// does not support the (provider, model) pair.
    pub fn new(provider: ProviderId, model: EmbedderModel, cluster: Cluster) -> (r: Result<
        Workflow,
        FailReason,
    >)
        ensures
            r is Ok <==> spec_is_model_supported(provider, model),
            r matches Ok(w) ==> w == (Workflow {
                provider,
                model,
                cluster,
                phase: Phase::Confirming,
            }),
            r matches Err(e) ==> e == FailReason::Unsupported,
    {
        if is_model_supported(provider, model) {
            Ok(Workflow { provider, model, cluster, phase: Phase::Confirming })
        } else {
            Err(FailReason::Unsupported)
        }
    }

    /// Absorbs the outcome of the outstanding exchange and answers with the
    /// next mutating call to issue, if any.
    pub fn step(&mut self, r: Reply) -> (a: Option<Action>)
        requires
            !phase_is_terminal(old(self).phase),
            old(self).wf(),
        ensures
            final(self).phase == step_phase(old(self).phase, r),
            a == step_action(old(self).phase, r),
            final(self).provider == old(self).provider,
            final(self).model == old(self).model,
            final(self).cluster == old(self).cluster,
            final(self).wf(),
    {
        match self.phase {
            Phase::Confirming => match r {
                Reply::Flag(true) => {
                    self.phase = Phase::CreatingCollection;
                    Some(Action::CreateCollection)
                },
                Reply::Flag(false) => {
                    self.phase = Phase::Failed(FailReason::Aborted);
                    None
                },
                Reply::TransportFailed => {
                    self.phase = Phase::Failed(FailReason::PromptFailed);
                    None
                },
            },
            Phase::CreatingCollection => match r {
                Reply::Flag(true) => {
                    self.phase = Phase::CreatingShardKey { index: 0 };
                    Some(Action::CreateShardKey { index: 0 })
                },
                Reply::Flag(false) => {
                    self.phase = Phase::Failed(FailReason::CollectionNotCreated);
                    None
                },
                Reply::TransportFailed => {
                    self.phase = Phase::Failed(FailReason::CollectionCallFailed);
                    None
                },
            },
            Phase::CreatingShardKey { index } => match r {
                Reply::Flag(true) => {
                    if index + 1 < SHARD_KEY_COUNT {
                        self.phase = Phase::CreatingShardKey { index: index + 1 };
                        Some(Action::CreateShardKey { index: index + 1 })
                    } else {
                        self.phase = Phase::Complete;
                        None
                    }
                },
                Reply::Flag(false) => {
                    self.phase = Phase::Failed(FailReason::ShardKeyNotCreated(index));
                    None
                },
                Reply::TransportFailed => {
                    self.phase = Phase::Failed(FailReason::ShardKeyCallFailed(index));
                    None
                },
            },
            Phase::Complete => None,
            Phase::Failed(_) => None,
        }
    }

    /// The name of the collection this run provisions.
    pub fn collection_name(&self) -> (r: String)
        ensures
            r@ == collection_name_chars(
                collection_prefix_chars(self.cluster),
                self.provider,
                self.model,
            ),
    {
        build_collection_name(collection_prefix(self.cluster), self.provider, self.model)
    }

    /// The name of the shard key at an index on this run's cluster.
    pub fn shard_key_name(&self, index: u64) -> (r: String)
        ensures
            r@ == shard_key_name_chars(shard_key_prefix_chars(self.cluster), index as nat),
    {
        build_shard_key_name(shard_key_prefix(self.cluster), index)
    }

    /// The full parameter set of the collection-creation call.
    pub fn collection_params(&self) -> (r: CreateCollectionParams)
        ensures
            r.collection_name@ == collection_name_chars(
                collection_prefix_chars(self.cluster),
                self.provider,
                self.model,
            ),
            r.vector_size == crate::registry::spec_embedding_size(self.model),
            r.distance == crate::config::Distance::Cosine,
            r.vectors_on_disk,
            r.hnsw_m == crate::config::HNSW_M,
            r.hnsw_payload_m == crate::config::HNSW_PAYLOAD_M,
            r.memmap_threshold == crate::config::MEMMAP_THRESHOLD,
            r.quantization_kind == crate::config::QuantizationKind::Int8,
            r.quantile_percent == crate::config::QUANTILE_PERCENT,
            r.quantization_always_ram,
            r.on_disk_payload,
            r.sharding_method == crate::config::ShardingMethod::Custom,
            r.shard_number == crate::config::SHARD_NUMBER,
            r.replication_factor == crate::config::REPLICATION_FACTOR,
            r.write_consistency_factor == crate::config::WRITE_CONSISTENCY_FACTOR,
    {
        build_create_collection_params(self.provider, self.model, self.cluster)
    }

    /// The announcement printed before the operator is asked.
    pub fn announcement_text(&self) -> (r: String)
        ensures
            r@ == announcement_chars(self.provider, self.model, self.cluster),
    {
        let mut s = "About to create collection ".to_owned();
        s.append(self.collection_name().as_str());
        s.append(" on cluster ");
        s.append(cluster_str(self.cluster));
        proof {
            assert(s@ =~= announcement_chars(self.provider, self.model, self.cluster));
        }
        s
    }

    /// The question the operator must answer before any mutation.
    pub fn prompt_text(&self) -> (r: String)
        ensures
            r@ == prompt_chars(self.provider, self.model, self.cluster),
    {
        let mut s = "Are you sure you want to create collection ".to_owned();
        s.append(self.collection_name().as_str());
        s.append(" on cluster ");
        s.append(cluster_str(self.cluster));
        s.append("?");
        proof {
            assert(s@ =~= prompt_chars(self.provider, self.model, self.cluster));
        }
        s
    }
}

/// The operator-facing description of a failure, with the shard-key index
/// where one applies.
pub open spec fn fail_reason_chars(r: FailReason) -> Seq<char> {
    match r {
        FailReason::Unsupported => "Model is not available for provider"@,
        FailReason::Aborted => "Aborted"@,
        FailReason::PromptFailed => "Confirmation prompt failed"@,
        FailReason::CollectionCallFailed => "Collection creation call failed"@,
        FailReason::CollectionNotCreated => "Collection not created!"@,
        FailReason::ShardKeyCallFailed(i) => "Shard key creation call failed at index "@
            + dec_chars(i as nat),
        FailReason::ShardKeyNotCreated(i) => "Shard key not created at index "@
            + dec_chars(i as nat),
    }
}

impl FailReason {
    /// Renders the failure for the operator.
    pub fn message(&self) -> (r: String)
        ensures
            r@ == fail_reason_chars(*self),
    {
        match *self {
            FailReason::Unsupported => "Model is not available for provider".to_owned(),
            FailReason::Aborted => "Aborted".to_owned(),
            FailReason::PromptFailed => "Confirmation prompt failed".to_owned(),
            FailReason::CollectionCallFailed => "Collection creation call failed".to_owned(),
            FailReason::CollectionNotCreated => "Collection not created!".to_owned(),
            FailReason::ShardKeyCallFailed(i) => {
                let mut s = "Shard key creation call failed at index ".to_owned();
                push_decimal(&mut s, i);
                s
            },
            FailReason::ShardKeyNotCreated(i) => {
                let mut s = "Shard key not created at index ".to_owned();
                push_decimal(&mut s, i);
                s
            },
        }
    }
}

/// The announcement of what is about to be created, and where.
pub open spec fn announcement_chars(p: ProviderId, m: EmbedderModel, c: Cluster) -> Seq<char> {
    "About to create collection "@ + collection_name_chars(collection_prefix_chars(c), p, m)
        + " on cluster "@ + cluster_chars(c)
}

/// The confirmation question, with the resolved collection name and cluster.
pub open spec fn prompt_chars(p: ProviderId, m: EmbedderModel, c: Cluster) -> Seq<char> {
    "Are you sure you want to create collection "@
        + collection_name_chars(collection_prefix_chars(c), p, m) + " on cluster "@
        + cluster_chars(c) + "?"@
}

} // verus!
