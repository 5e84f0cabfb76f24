use candle_core::Device;
use embeddy::cache::{Admission, ModelCache};
use embeddy::embedder::{Embedder, ModelFiles};
use embeddy::registry::{ModelInfo, ModelRegistry};
use embeddy::server::{embed_with, embedder_for, health_report, EmbedRequest};
use embeddy::Error;

fn model() -> ModelInfo {
    ModelInfo {
        name: "org/tiny".to_string(),
        hf_repo_id: "org/tiny".to_string(),
        alias: Some("tiny".to_string()),
        model_path: "/models/tiny".to_string(),
        embedding_dim: None,
        downloaded_at: "2024-05-01T10:00:00+00:00".to_string(),
    }
}

fn embedder() -> Embedder {
    let files = ModelFiles {
        config: Ok("{\"hidden_size\": 2}".to_string()),
        tokenizer: Ok(String::from(
            "{\"version\":\"1.0\",\"truncation\":null,\"padding\":null,\"added_tokens\":[],\
             \"normalizer\":null,\"pre_tokenizer\":{\"type\":\"Whitespace\"},\
             \"post_processor\":null,\"decoder\":null,\"model\":{\"type\":\"WordLevel\",\
             \"vocab\":{\"a\":0,\"b\":1,\"c\":2,\"d\":3},\"unk_token\":\"d\"}}",
        )),
        has_canonical_weights: true,
    };
    Embedder::load(&model(), Device::Cpu, &files).unwrap()
}

fn weights() -> Vec<u8> {
    let header =
        "{\"wte.weight\":{\"dtype\":\"F32\",\"shape\":[4,2],\"data_offsets\":[0,32]}}".to_string();
    let mut bytes = (header.len() as u64).to_le_bytes().to_vec();
    bytes.extend_from_slice(header.as_bytes());
    for v in [1.0f32, 0.0, 0.0, 1.0, 2.0, 2.0, 1.0, 1.0] {
        bytes.extend_from_slice(&v.to_le_bytes());
    }
    bytes
}

fn request(model: &str, input: &[&str]) -> EmbedRequest {
    EmbedRequest { model: model.to_string(), input: input.iter().map(|s| s.to_string()).collect() }
}

fn loaded_cache() -> ModelCache {
    let mut registry = ModelRegistry::new();
    registry.add_model(model());
    let mut cache = ModelCache::new();
    match cache.request("tiny", &registry).unwrap() {
        Admission::Load(_) => cache.complete("tiny", Ok(embedder())).unwrap(),
        _ => panic!("the first caller was not told to load"),
    }
    cache
}

#[test]
fn request_without_texts_is_invalid() {
    match request("tiny", &[]).validate() {
        Err(Error::InvalidInput(msg)) => assert_eq!(msg, "Input cannot be empty"),
        other => panic!("unexpected: {:?}", other),
    }
    assert!(request("tiny", &["a"]).validate().is_ok());
    assert!(request("tiny", &[""]).validate().is_ok());
}

#[test]
fn reply_names_the_model_and_holds_one_vector_per_text() {
    let reply = embed_with(&embedder(), &weights(), &request("tiny", &["a", "a b c", "c"])).unwrap();
    assert_eq!(reply.model, "tiny");
    assert_eq!(reply.dimension, 2);
    assert_eq!(reply.embeddings.len(), 3);
    let rows: Vec<Vec<f32>> =
        reply.embeddings.iter().map(|v| v.inner.to_vec1::<f32>().unwrap()).collect();
    assert_eq!(rows, vec![vec![1.0, 0.0], vec![1.0, 1.0], vec![2.0, 2.0]]);
}

#[test]
fn empty_request_is_refused_with_status_400() {
    match embed_with(&embedder(), &weights(), &request("tiny", &[])) {
        Err(e) => {
            assert_eq!(e.status_code(), 400);
            assert_eq!(e.reply_message(), "Invalid input: Input cannot be empty");
        }
        Ok(_) => panic!("an empty request was answered"),
    }
}

#[test]
fn failed_computation_has_status_500() {
    match embed_with(&embedder(), b"garbage", &request("tiny", &["a"])) {
        Err(e) => assert_eq!(e.status_code(), 500),
        Ok(_) => panic!("garbage was taken for a container"),
    }
}

#[test]
fn request_for_a_model_that_is_not_ready_is_not_found() {
    let cache = loaded_cache();
    match embedder_for(&cache, &request("other", &["a"])) {
        Err(e) => {
            assert_eq!(e.status_code(), 404);
            assert_eq!(e.reply_message(), "Model not found: other");
        }
        Ok(_) => panic!("a model that was never loaded was found"),
    }
    assert_eq!(embedder_for(&cache, &request("tiny", &["a"])).unwrap().embedding_dim(), 2);
    assert!(matches!(
        embedder_for(&cache, &request("other", &[])),
        Err(Error::InvalidInput(_))
    ));
}

#[test]
fn health_report_lists_the_loaded_models() {
    let report = health_report(&ModelCache::new(), &Device::Cpu);
    assert_eq!(report.status, "ok");
    assert!(report.loaded_models.is_empty());
    assert_eq!(report.device, "Cpu");
    let report = health_report(&loaded_cache(), &Device::Cpu);
    assert_eq!(report.status, "ok");
    assert_eq!(report.loaded_models, vec!["tiny".to_string()]);
}
