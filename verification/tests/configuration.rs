//! Providers, configuration validation, endpoint resolution, the system
//! prompt and the startup tree.

use deputy::context::{Context, ModelConfig, SessionConfig, TreeEntry, format_tree_entries,
    choose_instruction_source};
use deputy::errors::ConfigError;
use deputy::provider::{Provider, resolved_base_url};

#[test]
fn providers_require_their_key() {
    assert_eq!(Provider::Anthropic.required_env_vars(), vec!["ANTHROPIC_API_KEY"]);
    assert_eq!(Provider::OpenAI.required_env_vars(), vec!["OPENAI_API_KEY"]);
    assert!(Provider::Ollama.required_env_vars().is_empty());

    let with_key = vec!["ANTHROPIC_API_KEY".to_string(), "PATH".to_string()];
    assert!(Provider::Anthropic.validate_configuration(&with_key).is_ok());
    assert!(Provider::Ollama.validate_configuration(&Vec::new()).is_ok());

    match Provider::OpenAI.validate_configuration(&with_key) {
        Err(ConfigError::Missing { reason }) => {
            assert_eq!(reason, "environment variable: OPENAI_API_KEY");
        }
        other => panic!("expected a missing-variable error, got {:?}", other),
    }
}

#[test]
fn provider_display_names() {
    assert_eq!(Provider::Anthropic.display_name(), "anthropic");
    assert_eq!(Provider::OpenAI.display_name(), "open-ai");
    assert_eq!(Provider::Ollama.display_name(), "ollama");
}

#[test]
fn model_config_defaults_and_validation() {
    let env = vec!["ANTHROPIC_API_KEY".to_string()];
    let config = ModelConfig::new(
        Provider::Anthropic,
        "some-model".to_string(),
        false,
        None,
        &env,
    )
    .expect("key is present");
    assert_eq!(config.max_tokens, 5000);
    assert_eq!(config.model_name, "some-model");
    assert!(!config.yolo_mode);

    assert!(ModelConfig::new(
        Provider::Anthropic,
        "some-model".to_string(),
        false,
        None,
        &Vec::new(),
    )
    .is_err());
}

#[test]
fn ollama_gets_a_default_endpoint() {
    let r = resolved_base_url(&Provider::Ollama, &None, &None);
    assert_eq!(r, Some("http://localhost:11434/v1".to_string()));
    let r = resolved_base_url(&Provider::Ollama, &None, &Some("box:9999".to_string()));
    assert_eq!(r, Some("http://box:9999/v1".to_string()));
    let r = resolved_base_url(
        &Provider::Ollama,
        &Some("http://explicit/v1".to_string()),
        &Some("box:9999".to_string()),
    );
    assert_eq!(r, Some("http://explicit/v1".to_string()));
    let r = resolved_base_url(&Provider::Anthropic, &None, &None);
    assert_eq!(r, None);
}

#[test]
fn system_prompt_carries_the_gathered_inputs() {
    let sc = SessionConfig::new(
        Some("always speak Latin".to_string()),
        "/tmp/project".to_string(),
        Some("src/ (directory)\n  main.rs".to_string()),
    );
    let prompt = sc.to_system_prompt();
    assert!(prompt.contains("working directory: /tmp/project.\n"));
    assert!(prompt.contains("## Initial Project Structure"));
    assert!(prompt.contains("src/ (directory)\n  main.rs"));
    assert!(prompt.contains("<instructions>\nalways speak Latin\n</instructions>\n"));

    let bare = SessionConfig::new(None, "/work".to_string(), None);
    let prompt = bare.to_system_prompt();
    assert!(prompt.contains("working directory: /work.\n"));
    assert!(!prompt.contains("## Initial Project Structure"));
    assert!(!prompt.contains("<instructions>"));

    let config = ModelConfig::new(Provider::Ollama, "m".to_string(), true, None, &Vec::new())
        .unwrap();
    let ctx = Context::new(config, bare);
    assert!(ctx.model_config.yolo_mode);
}

#[test]
fn tree_entries_render_indented() {
    let entries = vec![
        TreeEntry { name: "src".to_string(), depth: 0, is_dir: true },
        TreeEntry { name: "main.rs".to_string(), depth: 1, is_dir: false },
        TreeEntry { name: "README.md".to_string(), depth: 0, is_dir: false },
    ];
    assert_eq!(
        format_tree_entries(&entries),
        Some("src/ (directory)\n  main.rs\nREADME.md".to_string())
    );
    assert_eq!(format_tree_entries(&Vec::new()), None);
}

#[test]
fn instruction_sources_follow_priority_order() {
    assert_eq!(choose_instruction_source(&vec![false, true, true]), Some(1));
    assert_eq!(choose_instruction_source(&vec![true, false]), Some(0));
    assert_eq!(choose_instruction_source(&vec![false, false]), None);
}
