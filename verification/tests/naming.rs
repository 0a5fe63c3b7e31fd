use qdrant_provision::names::build_collection_name;
use qdrant_provision::names::build_shard_key_name;
use qdrant_provision::names::push_decimal;
use qdrant_provision::registry::Cluster;
use qdrant_provision::registry::EmbedderModel;
use qdrant_provision::registry::ProviderId;
use qdrant_provision::registry::collection_prefix;
use qdrant_provision::registry::embedding_size;
use qdrant_provision::registry::is_model_supported;
use qdrant_provision::registry::shard_key_prefix;

#[test]
fn decimal_rendering_exact_values() {
    let cases: Vec<(u64, &str)> = vec![
        (0, "0"),
        (7, "7"),
        (10, "10"),
        (23, "23"),
        (24, "24"),
        (1536, "1536"),
        (18446744073709551615, "18446744073709551615"),
    ];
    for (n, expected) in cases {
        let mut s = String::new();
        push_decimal(&mut s, n);
        assert_eq!(s, expected);
    }
}

#[test]
fn collection_name_exact_value() {
    let name = build_collection_name(
        "c1",
        ProviderId::OpenAi,
        EmbedderModel::TextEmbeddingAda002,
    );
    assert_eq!(name, "c1_openai_text-embedding-ada-002");
}

#[test]
fn collection_name_is_deterministic() {
    let a = build_collection_name("c0", ProviderId::Mistral, EmbedderModel::MistralEmbed);
    let b = build_collection_name("c0", ProviderId::Mistral, EmbedderModel::MistralEmbed);
    assert_eq!(a, b);
    assert_eq!(a, "c0_mistral_mistral-embed");
}

#[test]
fn collection_names_distinct_across_pairs() {
    let pairs = vec![
        (ProviderId::OpenAi, EmbedderModel::TextEmbeddingAda002),
        (ProviderId::OpenAi, EmbedderModel::TextEmbedding3Large1536),
        (ProviderId::Mistral, EmbedderModel::MistralEmbed),
    ];
    let names: Vec<String> = pairs
        .iter()
        .map(|(p, m)| build_collection_name("c0", *p, *m))
        .collect();
    for i in 0..names.len() {
        for j in 0..names.len() {
            if i != j {
                assert_ne!(names[i], names[j]);
            }
        }
    }
}

#[test]
fn shard_key_name_exact_values() {
    assert_eq!(build_shard_key_name("sk1", 0), "sk1_0");
    assert_eq!(build_shard_key_name("sk1", 9), "sk1_9");
    assert_eq!(build_shard_key_name("sk1", 10), "sk1_10");
    assert_eq!(build_shard_key_name("sk1", 23), "sk1_23");
}

#[test]
fn shard_key_names_pairwise_distinct() {
    let names: Vec<String> = (0u64..24).map(|i| build_shard_key_name("sk0", i)).collect();
    for i in 0..names.len() {
        for j in 0..names.len() {
            if i != j {
                assert_ne!(names[i], names[j]);
            }
        }
    }
}

#[test]
fn cluster_prefixes() {
    assert_eq!(collection_prefix(Cluster::Main0), "c0");
    assert_eq!(shard_key_prefix(Cluster::Main0), "sk0");
    assert_eq!(collection_prefix(Cluster::Dedicated0), "c1");
    assert_eq!(shard_key_prefix(Cluster::Dedicated0), "sk1");
}

#[test]
fn support_matrix() {
    assert!(is_model_supported(
        ProviderId::OpenAi,
        EmbedderModel::TextEmbeddingAda002
    ));
    assert!(is_model_supported(
        ProviderId::OpenAi,
        EmbedderModel::TextEmbedding3Large1536
    ));
    assert!(is_model_supported(
        ProviderId::Mistral,
        EmbedderModel::MistralEmbed
    ));
    assert!(!is_model_supported(
        ProviderId::Mistral,
        EmbedderModel::TextEmbeddingAda002
    ));
    assert!(!is_model_supported(
        ProviderId::Mistral,
        EmbedderModel::TextEmbedding3Large1536
    ));
    assert!(!is_model_supported(
        ProviderId::OpenAi,
        EmbedderModel::MistralEmbed
    ));
}

#[test]
fn embedding_sizes() {
    assert_eq!(embedding_size(EmbedderModel::TextEmbeddingAda002), 1536);
    assert_eq!(embedding_size(EmbedderModel::TextEmbedding3Large1536), 1536);
    assert_eq!(embedding_size(EmbedderModel::MistralEmbed), 1024);
}
