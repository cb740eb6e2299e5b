use llm_lsp::configs::setting;
use llm_lsp::configs::Credentials;
use llm_lsp::configs::LlmConfig;
use llm_lsp::configs::LspConfig;
use llm_lsp::configs::StartupError;
use llm_lsp::providers::codeium_auth::auth_url;
use llm_lsp::providers::codeium_auth::entered_token;
use llm_lsp::providers::codeium_auth::register_payload;
use llm_lsp::providers::codeium_auth::registered_settings;
use llm_lsp::providers::codeium_auth::token_help;
use llm_lsp::providers::AiModelOptions;

fn pairs(entries: &[(&str, &str)]) -> Vec<(String, String)> {
    entries.iter().map(|(k, v)| (k.to_string(), v.to_string())).collect()
}

#[test]
fn init_offers_five_commands() {
    let config = LspConfig::init();
    let keys: Vec<&str> = config.commands.iter().map(|c| c.key).collect();
    assert_eq!(
        keys,
        vec![
            "resolve_diagnostics",
            "generate_docs",
            "improve_code",
            "refactor_from_comment",
            "write_test"
        ]
    );
    assert_eq!(config.commands[0].label, "Resolve diagnostics");
    assert_eq!(config.commands[0].query, "Resolve the diagnostics for this code.");
    assert_eq!(config.commands[1].label, "Generate documentation");
    assert_eq!(config.commands[1].query, "Add documentation to this code.");
    assert_eq!(config.commands[2].label, "Improve code");
    assert_eq!(config.commands[2].query, "Improve this code.");
    assert_eq!(config.commands[3].label, "Refactor code from a comment");
    assert_eq!(config.commands[3].query, "Refactor this code based on the comment.");
    assert_eq!(config.commands[4].label, "Write a unit test");
    assert_eq!(
        config.commands[4].query,
        "Write a unit test for this code. Do not include any imports."
    );
}

#[test]
fn init_announces_three_trigger_characters() {
    assert_eq!(LspConfig::init().trigger_characters, vec!["{", "(", " "]);
    assert_eq!(LspConfig::get_trigger_characters(), vec!["{", "(", " "]);
    assert_eq!(LspConfig::get_commands().len(), 5);
}

#[test]
fn setting_gives_the_last_value_of_a_key() {
    let entries = pairs(&[("A", "1"), ("B", "2"), ("A", "3")]);
    assert_eq!(setting(&entries, "A"), Some("3".to_string()));
    assert_eq!(setting(&entries, "B"), Some("2".to_string()));
    assert_eq!(setting(&entries, "C"), None);
    assert_eq!(setting(&entries, "a"), None);
    assert_eq!(setting(&vec![], "A"), None);
}

#[test]
fn default_config_is_empty() {
    let config = LlmConfig::default();
    assert!(config.codeium.is_empty());
    assert!(config.ollama.is_empty());
    assert!(config.openapi.is_empty());
    assert!(config.copilot.is_empty());
}

#[test]
fn generate_config_adds_to_codeium() {
    let mut config = LlmConfig::default();
    let done = config.generate_config(
        "codeium".to_string(),
        pairs(&[("API_KEY", "k1"), ("SESSION_ID", "s1")]),
    );
    assert_eq!(done, Ok(()));
    assert_eq!(setting(&config.codeium, "API_KEY"), Some("k1".to_string()));
    assert_eq!(setting(&config.codeium, "SESSION_ID"), Some("s1".to_string()));
    let again = config.generate_config("codeium".to_string(), pairs(&[("API_KEY", "k2")]));
    assert_eq!(again, Ok(()));
    assert_eq!(setting(&config.codeium, "API_KEY"), Some("k2".to_string()));
    assert_eq!(setting(&config.codeium, "SESSION_ID"), Some("s1".to_string()));
    assert!(config.ollama.is_empty());
    assert!(config.openapi.is_empty());
    assert!(config.copilot.is_empty());
}

#[test]
fn generate_config_refuses_other_providers() {
    let mut config = LlmConfig::default();
    config.codeium = pairs(&[("API_KEY", "k1")]);
    for provider in ["ollama", "openai", "copilot", "", "Codeium"] {
        let done = config.generate_config(provider.to_string(), pairs(&[("API_KEY", "k2")]));
        assert_eq!(done, Err("Provider {provider} is not supported as of now!".to_string()));
        assert_eq!(config.codeium, pairs(&[("API_KEY", "k1")]));
        assert!(config.ollama.is_empty());
        assert!(config.openapi.is_empty());
        assert!(config.copilot.is_empty());
    }
}

#[test]
fn get_configs_gives_the_settings_of_codeium_only() {
    let mut config = LlmConfig::default();
    config.codeium = pairs(&[("API_KEY", "k1")]);
    config.ollama = pairs(&[("URL", "http://localhost")]);
    assert_eq!(config.get_configs("codeium"), Ok(&pairs(&[("API_KEY", "k1")])));
    assert_eq!(
        config.get_configs("ollama"),
        Err("Provider {provider} is not supported as of now!".to_string())
    );
    assert_eq!(
        config.get_configs(""),
        Err("Provider {provider} is not supported as of now!".to_string())
    );
}

#[test]
fn credentials_need_provider_key_and_session() {
    let mut config = LlmConfig::default();
    assert_eq!(config.credentials("ollama"), Err(StartupError::UnsupportedProvider));
    assert_eq!(config.credentials("codeium"), Err(StartupError::MissingApiKey));
    config.codeium = pairs(&[("SESSION_ID", "s1")]);
    assert_eq!(config.credentials("codeium"), Err(StartupError::MissingApiKey));
    config.codeium = pairs(&[("API_KEY", "k1")]);
    assert_eq!(config.credentials("codeium"), Err(StartupError::MissingSessionId));
    config.codeium = pairs(&[("API_KEY", "k1"), ("SESSION_ID", "s1"), ("API_KEY", "k2")]);
    assert_eq!(
        config.credentials("codeium"),
        Ok(Credentials { api_key: "k2".to_string(), session_id: "s1".to_string() })
    );
    assert_eq!(config.credentials("copilot"), Err(StartupError::UnsupportedProvider));
}

#[test]
fn auth_url_names_the_session() {
    assert_eq!(
        auth_url("1234-abcd"),
        "https://www.codeium.com/profile?response_type=token&redirect_uri=vim-show-auth-token&state=1234-abcd&scope=openid%20profile%20email&redirect_parameters_type=query"
    );
    assert_eq!(
        token_help("x"),
        "Visit the following URL: https://www.codeium.com/profile?response_type=token&redirect_uri=vim-show-auth-token&state=x&scope=openid%20profile%20email&redirect_parameters_type=query"
    );
}

#[test]
fn entered_token_is_trimmed() {
    assert_eq!(entered_token("  tok en \n"), "tok en");
    assert_eq!(entered_token("token"), "token");
    assert_eq!(entered_token("\n"), "");
}

#[test]
fn register_payload_carries_the_token() {
    assert_eq!(register_payload("tok".to_string()), pairs(&[("firebase_id_token", "tok")]));
}

#[test]
fn registered_settings_hold_key_and_session() {
    let entries = registered_settings("k1".to_string(), "s1".to_string());
    assert_eq!(entries, pairs(&[("API_KEY", "k1"), ("SESSION_ID", "s1")]));
    let mut config = LlmConfig::default();
    assert_eq!(config.generate_config("codeium".to_string(), entries), Ok(()));
    assert_eq!(
        config.credentials("codeium"),
        Ok(Credentials { api_key: "k1".to_string(), session_id: "s1".to_string() })
    );
}

#[test]
fn model_options_hold_url_headers_and_params() {
    let options = AiModelOptions {
        url: "http://localhost:11434".to_string(),
        headers: pairs(&[("content-type", "application/json")]),
        params: vec![],
    };
    assert_eq!(options.url, "http://localhost:11434");
    assert_eq!(options.headers.len(), 1);
    assert!(options.params.is_empty());
}
