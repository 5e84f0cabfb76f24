use embeddy::cli::{default_device, default_host, Cli, Commands, DEFAULT_PORT};
use embeddy::config::{
    application_name, data_dir_variable, models_dir_name, registry_file_name, Config,
};
use embeddy::Error;

#[test]
fn run_without_text_is_invalid() {
    let command = Commands::Run {
        model: "tiny".to_string(),
        text: Vec::new(),
        device: "cpu".to_string(),
    };
    match command.check() {
        Err(Error::InvalidInput(msg)) => {
            assert_eq!(msg, "No text provided. Use --text \"your text\"")
        }
        other => panic!("unexpected: {:?}", other),
    }
}

#[test]
fn other_commands_pass_the_check() {
    let run = Commands::Run {
        model: "tiny".to_string(),
        text: vec!["hello".to_string()],
        device: "cpu".to_string(),
    };
    assert!(run.check().is_ok());
    let pull = Commands::Pull { model: "org/tiny".to_string(), alias: None };
    assert!(pull.check().is_ok());
    let serve = Commands::Serve {
        device: default_device().to_string(),
        port: DEFAULT_PORT,
        host: default_host().to_string(),
    };
    assert!(serve.check().is_ok());
    let cli = Cli { command: Commands::List };
    assert!(cli.command.check().is_ok());
}

#[test]
fn defaults_of_the_command_line() {
    assert_eq!(default_device(), "cpu");
    assert_eq!(default_host(), "0.0.0.0");
    assert_eq!(DEFAULT_PORT, 8080);
}

#[test]
fn layout_of_the_data_directory() {
    assert_eq!(application_name(), "embeddy");
    assert_eq!(data_dir_variable(), "EMBEDDY_DATA_DIR");
    assert_eq!(models_dir_name(), "models");
    assert_eq!(registry_file_name(), "models.toml");
}

#[test]
fn config_clone_keeps_every_field() {
    let config = Config {
        data_dir: "/d".to_string(),
        models_dir: "/d/models".to_string(),
        registry_path: "/d/models.toml".to_string(),
    };
    let copy = config.clone();
    assert_eq!(copy.data_dir, "/d");
    assert_eq!(copy.models_dir, "/d/models");
    assert_eq!(copy.registry_path, "/d/models.toml");
}
