use qdrant_provision::config::Distance;
use qdrant_provision::config::QuantizationKind;
use qdrant_provision::config::SHARD_KEY_COUNT;
use qdrant_provision::config::ShardingMethod;
use qdrant_provision::registry::Cluster;
use qdrant_provision::registry::EmbedderModel;
use qdrant_provision::registry::ProviderId;
use qdrant_provision::workflow::Action;
use qdrant_provision::workflow::FailReason;
use qdrant_provision::workflow::Phase;
use qdrant_provision::workflow::Reply;
use qdrant_provision::workflow::Workflow;

/// A stand-in for the cluster: records every mutating call the machine asks
/// for and answers each from a scripted list of replies.
struct MockCluster {
    issued: Vec<Action>,
    replies: Vec<Reply>,
}

impl MockCluster {
    fn new(replies: Vec<Reply>) -> MockCluster {
        MockCluster {
            issued: Vec::new(),
            replies,
        }
    }

    fn perform(&mut self, a: Action) -> Reply {
        self.issued.push(a);
        self.replies.remove(0)
    }
}

/// Runs the whole workflow against a mock cluster: the first scripted reply
/// answers the confirmation prompt, each further one the call it follows.
fn drive(w: &mut Workflow, cluster: &mut MockCluster) {
    let mut reply = cluster.replies.remove(0);
    loop {
        if matches!(w.phase, Phase::Complete | Phase::Failed(_)) {
            break;
        }
        match w.step(reply) {
            Some(a) => {
                reply = cluster.perform(a);
            }
            None => break,
        }
    }
}

fn yes() -> Reply {
    Reply::Flag(true)
}

fn no() -> Reply {
    Reply::Flag(false)
}

#[test]
fn unsupported_pair_is_refused_before_any_call() {
    let mut cluster = MockCluster::new(vec![]);
    let r = Workflow::new(
        ProviderId::Mistral,
        EmbedderModel::TextEmbeddingAda002,
        Cluster::Main0,
    );
    match r {
        Ok(_) => panic!("unsupported pair accepted"),
        Err(e) => {
            assert_eq!(e, FailReason::Unsupported);
            assert_eq!(e.message(), "Model is not available for provider");
        }
    }
    assert_eq!(cluster.issued.len(), 0);
    let _ = &mut cluster;
}

#[test]
fn declined_confirmation_issues_no_call() {
    let mut cluster = MockCluster::new(vec![no()]);
    let mut w = Workflow::new(
        ProviderId::OpenAi,
        EmbedderModel::TextEmbeddingAda002,
        Cluster::Main0,
    )
    .unwrap();
    drive(&mut w, &mut cluster);
    assert_eq!(cluster.issued.len(), 0);
    assert_eq!(w.phase, Phase::Failed(FailReason::Aborted));
    assert_eq!(FailReason::Aborted.message(), "Aborted");
}

#[test]
fn failed_prompt_issues_no_call() {
    let mut cluster = MockCluster::new(vec![Reply::TransportFailed]);
    let mut w = Workflow::new(
        ProviderId::OpenAi,
        EmbedderModel::TextEmbeddingAda002,
        Cluster::Main0,
    )
    .unwrap();
    drive(&mut w, &mut cluster);
    assert_eq!(cluster.issued.len(), 0);
    assert_eq!(w.phase, Phase::Failed(FailReason::PromptFailed));
}

#[test]
fn false_creation_result_issues_no_shard_key_call() {
    let mut cluster = MockCluster::new(vec![yes(), no()]);
    let mut w = Workflow::new(
        ProviderId::OpenAi,
        EmbedderModel::TextEmbeddingAda002,
        Cluster::Main0,
    )
    .unwrap();
    drive(&mut w, &mut cluster);
    assert_eq!(cluster.issued, vec![Action::CreateCollection]);
    assert_eq!(w.phase, Phase::Failed(FailReason::CollectionNotCreated));
    assert_eq!(
        FailReason::CollectionNotCreated.message(),
        "Collection not created!"
    );
}

#[test]
fn transport_error_on_creation_issues_no_shard_key_call() {
    let mut cluster = MockCluster::new(vec![yes(), Reply::TransportFailed]);
    let mut w = Workflow::new(
        ProviderId::OpenAi,
        EmbedderModel::TextEmbeddingAda002,
        Cluster::Main0,
    )
    .unwrap();
    drive(&mut w, &mut cluster);
    assert_eq!(cluster.issued, vec![Action::CreateCollection]);
    assert_eq!(w.phase, Phase::Failed(FailReason::CollectionCallFailed));
}

#[test]
fn shard_key_failure_stops_after_that_index() {
    // Confirmation, creation, and shard keys 0..=2 succeed; key 3 comes back
    // with a false result flag.
    let mut replies = vec![yes(), yes()];
    for _ in 0..3 {
        replies.push(yes());
    }
    replies.push(no());
    let mut cluster = MockCluster::new(replies);
    let mut w = Workflow::new(
        ProviderId::OpenAi,
        EmbedderModel::TextEmbeddingAda002,
        Cluster::Main0,
    )
    .unwrap();
    drive(&mut w, &mut cluster);
    let mut expected = vec![Action::CreateCollection];
    for i in 0u64..=3 {
        expected.push(Action::CreateShardKey { index: i });
    }
    assert_eq!(cluster.issued, expected);
    assert_eq!(w.phase, Phase::Failed(FailReason::ShardKeyNotCreated(3)));
    assert_eq!(
        FailReason::ShardKeyNotCreated(3).message(),
        "Shard key not created at index 3"
    );
}

#[test]
fn shard_key_transport_error_stops_after_that_index() {
    let mut replies = vec![yes(), yes(), yes()];
    replies.push(Reply::TransportFailed);
    let mut cluster = MockCluster::new(replies);
    let mut w = Workflow::new(
        ProviderId::OpenAi,
        EmbedderModel::TextEmbeddingAda002,
        Cluster::Main0,
    )
    .unwrap();
    drive(&mut w, &mut cluster);
    assert_eq!(
        cluster.issued,
        vec![
            Action::CreateCollection,
            Action::CreateShardKey { index: 0 },
            Action::CreateShardKey { index: 1 },
        ]
    );
    assert_eq!(w.phase, Phase::Failed(FailReason::ShardKeyCallFailed(1)));
    assert_eq!(
        FailReason::ShardKeyCallFailed(1).message(),
        "Shard key creation call failed at index 1"
    );
}

#[test]
fn full_run_issues_every_call_in_order() {
    let mut replies = vec![yes(), yes()];
    for _ in 0..SHARD_KEY_COUNT {
        replies.push(yes());
    }
    let mut cluster = MockCluster::new(replies);
    let mut w = Workflow::new(
        ProviderId::OpenAi,
        EmbedderModel::TextEmbeddingAda002,
        Cluster::Dedicated0,
    )
    .unwrap();

    assert_eq!(
        w.announcement_text(),
        "About to create collection c1_openai_text-embedding-ada-002 on cluster dedicated-0"
    );

    let prompt = w.prompt_text();
    assert!(prompt.contains("c1_openai_text-embedding-ada-002"));
    assert!(prompt.contains("dedicated-0"));
    assert_eq!(
        prompt,
        "Are you sure you want to create collection c1_openai_text-embedding-ada-002 \
         on cluster dedicated-0?"
    );

    let params = w.collection_params();
    assert_eq!(params.collection_name, "c1_openai_text-embedding-ada-002");
    assert_eq!(params.vector_size, 1536);
    assert_eq!(params.distance, Distance::Cosine);
    assert!(params.vectors_on_disk);
    assert_eq!(params.hnsw_m, 0);
    assert_eq!(params.hnsw_payload_m, 16);
    assert_eq!(params.memmap_threshold, 16384);
    assert_eq!(params.quantization_kind, QuantizationKind::Int8);
    assert_eq!(params.quantile_percent, 99);
    assert!(params.quantization_always_ram);
    assert!(params.on_disk_payload);
    assert_eq!(params.sharding_method, ShardingMethod::Custom);
    assert_eq!(params.shard_number, 2);
    assert_eq!(params.replication_factor, 2);
    assert_eq!(params.write_consistency_factor, 1);

    drive(&mut w, &mut cluster);
    assert_eq!(w.phase, Phase::Complete);
    assert_eq!(cluster.issued.len(), 1 + SHARD_KEY_COUNT as usize);
    assert_eq!(cluster.issued[0], Action::CreateCollection);
    for i in 0..SHARD_KEY_COUNT {
        assert_eq!(
            cluster.issued[1 + i as usize],
            Action::CreateShardKey { index: i }
        );
        assert_eq!(w.shard_key_name(i), format!("sk1_{}", i));
    }
}

#[test]
fn unsupported_pair_end_to_end_reports_and_makes_no_call() {
    // The operator would confirm, and the cluster would answer; neither is
    // ever consulted.
    let mut cluster = MockCluster::new(vec![yes(), yes()]);
    match Workflow::new(
        ProviderId::OpenAi,
        EmbedderModel::MistralEmbed,
        Cluster::Dedicated0,
    ) {
        Ok(_) => panic!("unsupported pair accepted"),
        Err(e) => assert_eq!(e.message(), "Model is not available for provider"),
    }
    assert_eq!(cluster.issued.len(), 0);
    let _ = &mut cluster;
}
