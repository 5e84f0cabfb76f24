use embeddy::config::Config;
use embeddy::downloader::{
    advance_pull, begin_pull, display_name, ModelDownloader, PullAction, PullEvent, PullStage,
    RemoteFile,
};
use embeddy::registry::ModelRegistry;
use embeddy::Error;

fn config() -> Config {
    Config {
        data_dir: "/data".to_string(),
        models_dir: "/data/models".to_string(),
        registry_path: "/data/models.toml".to_string(),
    }
}

fn failure(action: PullAction) -> String {
    match action {
        PullAction::Fail(Error::DownloadFailed(msg)) => msg,
        _ => panic!("the installation did not fail with a download failure"),
    }
}

fn located(path: &str) -> PullEvent {
    PullEvent::Located(path.to_string())
}

fn failed(why: &str) -> PullEvent {
    PullEvent::Failed(why.to_string())
}

#[test]
fn a_full_installation_ends_in_registration() {
    let (stage, action) = begin_pull();
    assert!(matches!(stage, PullStage::Connect));
    assert!(matches!(action, PullAction::Connect));
    let (stage, action) = advance_pull(stage, PullEvent::Done);
    assert!(matches!(action, PullAction::Fetch(RemoteFile::CanonicalWeights)));
    let (stage, action) = advance_pull(stage, located("/hub/snap/model.safetensors"));
    assert!(matches!(action, PullAction::Fetch(RemoteFile::Tokenizer)));
    let (stage, action) = advance_pull(stage, located("/hub/snap/tokenizer.json"));
    assert!(matches!(action, PullAction::Fetch(RemoteFile::Config)));
    let (stage, action) = advance_pull(stage, located("/hub/snap/config.json"));
    match &action {
        PullAction::ParentOf(path) => assert_eq!(path, "/hub/snap/model.safetensors"),
        _ => panic!("the directory of the weights was not asked for"),
    }
    let (stage, action) = advance_pull(stage, located("/hub/snap"));
    match &action {
        PullAction::Convert(dir) => assert_eq!(dir, "/hub/snap"),
        _ => panic!("the weights were not converted"),
    }
    let (stage, action) = advance_pull(stage, PullEvent::Done);
    assert!(matches!(stage, PullStage::Finished));
    match &action {
        PullAction::Register(dir) => assert_eq!(dir, "/hub/snap"),
        _ => panic!("the model was not registered"),
    }
}

#[test]
fn legacy_weights_are_fetched_when_canonical_ones_are_missing() {
    let (stage, _) = begin_pull();
    let (stage, _) = advance_pull(stage, PullEvent::Done);
    let (stage, action) = advance_pull(stage, failed("404"));
    assert!(matches!(action, PullAction::Fetch(RemoteFile::LegacyWeights)));
    let (stage, action) = advance_pull(stage, located("/hub/snap/pytorch_model.bin"));
    assert!(matches!(action, PullAction::Fetch(RemoteFile::Tokenizer)));
    let (stage, _) = advance_pull(stage, located("/hub/snap/tokenizer.json"));
    let (_, action) = advance_pull(stage, located("/hub/snap/config.json"));
    match &action {
        PullAction::ParentOf(path) => assert_eq!(path, "/hub/snap/pytorch_model.bin"),
        _ => panic!("the directory of the weights was not asked for"),
    }
}

#[test]
fn unreachable_service_is_a_download_failure() {
    let (stage, _) = begin_pull();
    let (stage, action) = advance_pull(stage, failed("no network"));
    assert!(matches!(stage, PullStage::Finished));
    assert_eq!(failure(action), "no network");
}

#[test]
fn missing_weights_are_a_download_failure() {
    let (stage, _) = begin_pull();
    let (stage, _) = advance_pull(stage, PullEvent::Done);
    let (stage, _) = advance_pull(stage, failed("404 canonical"));
    let (_, action) = advance_pull(stage, failed("404 legacy"));
    assert_eq!(failure(action), "Could not find model file: 404 legacy");
}

#[test]
fn missing_tokenizer_is_a_download_failure() {
    let (stage, _) = begin_pull();
    let (stage, _) = advance_pull(stage, PullEvent::Done);
    let (stage, _) = advance_pull(stage, located("/w"));
    let (_, action) = advance_pull(stage, failed("404"));
    assert_eq!(failure(action), "Could not find tokenizer: 404");
}

#[test]
fn missing_config_is_a_download_failure() {
    let (stage, _) = begin_pull();
    let (stage, _) = advance_pull(stage, PullEvent::Done);
    let (stage, _) = advance_pull(stage, located("/w"));
    let (stage, _) = advance_pull(stage, located("/t"));
    let (_, action) = advance_pull(stage, failed("404"));
    assert_eq!(failure(action), "Could not find config: 404");
}

#[test]
fn weights_without_a_directory_are_a_download_failure() {
    let (stage, _) = begin_pull();
    let (stage, _) = advance_pull(stage, PullEvent::Done);
    let (stage, _) = advance_pull(stage, located("model.safetensors"));
    let (stage, _) = advance_pull(stage, located("/t"));
    let (stage, _) = advance_pull(stage, located("/c"));
    let (_, action) = advance_pull(stage, failed("no parent"));
    assert_eq!(failure(action), "Invalid model path");
}

#[test]
fn a_failed_conversion_is_passed_on_unchanged() {
    let (stage, _) = begin_pull();
    let (stage, _) = advance_pull(stage, PullEvent::Done);
    let (stage, _) = advance_pull(stage, located("/d/w"));
    let (stage, _) = advance_pull(stage, located("/d/t"));
    let (stage, _) = advance_pull(stage, located("/d/c"));
    let (stage, _) = advance_pull(stage, located("/d"));
    let rejected = PullEvent::Rejected(Error::ModelLoadFailed("bad pickle".to_string()));
    let (stage, action) = advance_pull(stage, rejected);
    assert!(matches!(stage, PullStage::Finished));
    match action {
        PullAction::Fail(Error::ModelLoadFailed(msg)) => assert_eq!(msg, "bad pickle"),
        _ => panic!("the failure of the conversion was not passed on"),
    }
}

#[test]
fn an_answer_out_of_step_ends_the_installation() {
    let (stage, _) = begin_pull();
    let (stage, action) = advance_pull(stage, located("/x"));
    assert!(matches!(stage, PullStage::Finished));
    assert_eq!(failure(action), "Download was answered out of step");
    let (_, action) = advance_pull(stage, PullEvent::Done);
    assert_eq!(failure(action), "Download was answered out of step");
}

#[test]
fn remote_files_have_their_names() {
    assert_eq!(RemoteFile::CanonicalWeights.file_name(), "model.safetensors");
    assert_eq!(RemoteFile::LegacyWeights.file_name(), "pytorch_model.bin");
    assert_eq!(RemoteFile::Tokenizer.file_name(), "tokenizer.json");
    assert_eq!(RemoteFile::Config.file_name(), "config.json");
}

#[test]
fn display_name_is_the_alias_or_the_last_segment() {
    assert_eq!(display_name("org/mini", &Some("m".to_string())), "m");
    assert_eq!(display_name("sentence-transformers/all-MiniLM-L6-v2", &None), "all-MiniLM-L6-v2");
    assert_eq!(display_name("plain", &None), "plain");
    assert_eq!(display_name("a/b/c", &None), "c");
    assert_eq!(display_name("org/", &None), "");
    assert_eq!(display_name("", &None), "");
    assert_eq!(display_name("/", &None), "");
    assert_eq!(display_name("org/mod\u{e8}le", &None), "mod\u{e8}le");
}

#[test]
fn register_files_the_model_under_its_alias() {
    let mut downloader = ModelDownloader::new(config(), ModelRegistry::new());
    let info = downloader.register(
        "org/mini",
        Some("mini".to_string()),
        "/hub/snap".to_string(),
        "2024-05-01T10:00:00+00:00".to_string(),
    );
    assert_eq!(info.name, "org/mini");
    assert_eq!(info.hf_repo_id, "org/mini");
    assert_eq!(info.alias.as_deref(), Some("mini"));
    assert_eq!(info.model_path, "/hub/snap");
    assert_eq!(info.embedding_dim, None);
    assert_eq!(info.downloaded_at, "2024-05-01T10:00:00+00:00");
    let filed = downloader.registry().get_model("mini").unwrap();
    assert_eq!(filed.model_path, "/hub/snap");
    assert!(!downloader.registry().contains("org/mini"));
}

#[test]
fn register_files_the_model_under_its_name_without_alias() {
    let mut registry = ModelRegistry::new();
    let mut downloader = ModelDownloader::new(config(), ModelRegistry::new());
    let old = downloader.register("org/old", None, "/hub/old".to_string(), "t0".to_string());
    registry.add_model(old);
    let mut downloader = ModelDownloader::new(config(), registry);
    downloader.register("org/mini", None, "/hub/snap".to_string(), "t1".to_string());
    assert_eq!(downloader.registry().len(), 2);
    assert_eq!(downloader.registry().get_model("org/mini").unwrap().downloaded_at, "t1");
    assert_eq!(downloader.registry().get_model("org/old").unwrap().downloaded_at, "t0");
    assert_eq!(downloader.config().data_dir, "/data");
    assert_eq!(downloader.config().models_dir, "/data/models");
    assert_eq!(downloader.config().registry_path, "/data/models.toml");
}
