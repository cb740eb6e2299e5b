use llm_lsp::protocol::ItemKind;
use llm_lsp::protocol::Position;
use llm_lsp::protocol::Range;
use llm_lsp::protocol::SuggestionItem;
use llm_lsp::protocol::TextEdit;
use llm_lsp::providers::codeium::CodeiumRequest;
use llm_lsp::providers::codeium::EditorOptions;
use llm_lsp::providers::codeium_types::language_code;
use llm_lsp::providers::codeium_types::languages;
use llm_lsp::providers::codeium_types::LANGUAGE_UNSPECIFIED;
use llm_lsp::providers::llm_api::expected_body;
use llm_lsp::providers::llm_api::make_completion_item;
use llm_lsp::providers::llm_api::suggestions;
use llm_lsp::providers::llm_api::BodyKind;
use llm_lsp::providers::llm_api::CompletionRequest;
use llm_lsp::providers::llm_api::LlmClientApi;
use llm_lsp::providers::llm_api::LlmState;
use llm_lsp::providers::llm_api::ProviderReply;
use llm_lsp::providers::llm_api::STATUS_OK;

fn request_at(contents: &str, line: u32, character: u32, suggestions: usize) -> CompletionRequest {
    CompletionRequest {
        contents: contents.to_string(),
        filepath: "/home/me/main.rs".to_string(),
        language_id: "rust".to_string(),
        position: Position { line, character },
        suggestions,
        client_name: "helix".to_string(),
        client_version: "24.03".to_string(),
    }
}

fn completions(texts: &[&str]) -> ProviderReply {
    ProviderReply::Completions { items: Some(texts.iter().map(|t| t.to_string()).collect()) }
}

fn line_item(line: u32, label: &str, new_text: &str) -> SuggestionItem {
    SuggestionItem {
        label: label.to_string(),
        detail: None,
        kind: Some(ItemKind::Text),
        text_edit: Some(TextEdit {
            range: Range {
                start: Position { line, character: 0 },
                end: Position { line: line + 1, character: 0 },
            },
            new_text: new_text.to_string(),
        }),
    }
}

fn simple(label: &str, detail: &str) -> SuggestionItem {
    SuggestionItem {
        label: label.to_string(),
        detail: Some(detail.to_string()),
        kind: None,
        text_edit: None,
    }
}

#[test]
fn transport_failure_gives_an_empty_list() {
    let client = LlmState::new("key", "session");
    let request = request_at("fn main() {}", 0, 3, 3);
    assert_eq!(client.completion(&request, ProviderReply::Unreachable), vec![]);
    assert_eq!(suggestions(0, 3, ProviderReply::Unreachable), vec![]);
    assert_eq!(suggestions(7, 0, ProviderReply::Unreachable), vec![]);
}

#[test]
fn one_completion_replaces_the_line_of_the_cursor() {
    let client = LlmState::new("key", "session");
    let request = request_at("fn main() {\n  \n}", 1, 2, 3);
    let body = client.request(&request);
    assert_eq!(body.document.cursor_offset, 14);
    let items = client.completion(&request, completions(&["println!(\"hi\");"]));
    assert_eq!(items.len(), 1);
    let edit = items[0].text_edit.clone().unwrap();
    assert_eq!(edit.range.start, Position { line: 1, character: 0 });
    assert_eq!(edit.range.end, Position { line: 2, character: 0 });
    assert_eq!(edit.new_text, "println!(\"hi\");\n");
    assert_eq!(items, vec![line_item(1, "println!(\"hi\");", "println!(\"hi\");\n")]);
}

#[test]
fn completions_are_cut_to_the_number_wanted_in_provider_order() {
    let reply = completions(&["a", "b", "c", "d", "e"]);
    assert_eq!(
        suggestions(2, 3, reply.clone()),
        vec![line_item(2, "a", "a\n"), line_item(2, "b", "b\n"), line_item(2, "c", "c\n")]
    );
    assert_eq!(suggestions(2, 1, reply.clone()), vec![line_item(2, "a", "a\n")]);
    assert_eq!(suggestions(2, 0, reply.clone()), vec![]);
    assert_eq!(suggestions(2, 5, reply.clone()).len(), 5);
    assert_eq!(suggestions(2, 9, reply).len(), 5);
}

#[test]
fn no_completions_give_an_empty_list() {
    assert_eq!(suggestions(0, 3, completions(&[])), vec![]);
    assert_eq!(suggestions(0, 3, ProviderReply::Completions { items: None }), vec![]);
}

#[test]
fn label_loses_trailing_white_space_and_the_edit_keeps_it() {
    assert_eq!(
        make_completion_item(4, "  return x;  \n"),
        line_item(4, "  return x;", "  return x;  \n\n")
    );
    assert_eq!(make_completion_item(0, ""), line_item(0, "", "\n"));
    assert_eq!(make_completion_item(0, " \t"), line_item(0, "", " \t\n"));
}

#[test]
fn undecodable_body_gives_one_item_that_shows_the_error() {
    let reply = ProviderReply::Undecodable { error: "expected value at line 1".to_string() };
    assert_eq!(suggestions(3, 3, reply.clone()), vec![simple("expected value at line 1", "JsonOk Err")]);
    assert_eq!(suggestions(3, 0, reply), vec![simple("expected value at line 1", "JsonOk Err")]);
}

#[test]
fn refusal_gives_one_item_with_code_and_message() {
    let reply = ProviderReply::Rejected {
        code: "invalid_argument".to_string(),
        message: "invalid api key".to_string(),
    };
    assert_eq!(suggestions(3, 3, reply), vec![simple("invalid_argument", "invalid api key")]);
}

#[test]
fn refusal_that_says_nothing_gives_one_item_with_an_empty_label() {
    assert_eq!(suggestions(3, 3, ProviderReply::Unrecognised), vec![simple("", "Json Ok Error")]);
}

#[test]
fn new_simple_shows_label_and_detail_only() {
    assert_eq!(SuggestionItem::new_simple("l".to_string(), "d".to_string()), simple("l", "d"));
}

#[test]
fn only_status_200_carries_completions() {
    assert_eq!(STATUS_OK, 200);
    assert_eq!(expected_body(200), BodyKind::Completions);
    assert_eq!(expected_body(201), BodyKind::ProviderError);
    assert_eq!(expected_body(204), BodyKind::ProviderError);
    assert_eq!(expected_body(400), BodyKind::ProviderError);
    assert_eq!(expected_body(401), BodyKind::ProviderError);
    assert_eq!(expected_body(500), BodyKind::ProviderError);
    assert_eq!(expected_body(0), BodyKind::ProviderError);
}

#[test]
fn new_provider_keeps_the_credentials() {
    let client = LlmState::new("key-1", "session-2");
    assert_eq!(
        client.auth_url,
        "https://web-backend.codeium.com/exa.language_server_pb.LanguageServerService/GetCompletions"
    );
    assert_eq!(client.api_key, "key-1");
    assert_eq!(client.session_id, "session-2");
    client.chat();
}

#[test]
fn headers_carry_the_credentials() {
    let client = LlmState::new("key-1", "session-2");
    let expected: Vec<(String, String)> = [
        ("accept-encoding", "gzip, deflate, br"),
        ("authorization", "Basic key-1-session-2"),
        ("content-type", "application/json"),
        ("connection", "keep-alive"),
    ]
    .iter()
    .map(|(n, v)| (n.to_string(), v.to_string()))
    .collect();
    assert_eq!(client.headers(), expected);
}

#[test]
fn request_body_holds_document_and_constants() {
    let client = LlmState::new("key-1", "session-2");
    let request = request_at("ab\ncde\nf", 1, 2, 3);
    let body: CodeiumRequest = client.request(&request);
    assert_eq!(body.metadata.ide_name, "web");
    assert_eq!(body.metadata.ide_version, "unknown");
    assert_eq!(body.metadata.extension_version, "0.1.0");
    assert_eq!(body.metadata.extension_name, "llm-lsp");
    assert_eq!(body.metadata.api_key, "key-1");
    assert_eq!(body.metadata.session_id, "session-2");
    assert_eq!(body.document.editor_language, "rust");
    assert_eq!(body.document.language, 36);
    assert_eq!(body.document.cursor_offset, 5);
    assert_eq!(body.document.line_ending, "\n");
    assert_eq!(body.document.absolute_path, "/home/me/main.rs");
    assert_eq!(body.document.relative_path, "/home/me/main.rs");
    assert_eq!(body.document.text, "ab\ncde\nf");
    assert_eq!(body.editor_options, EditorOptions { tab_size: 2, insert_spaces: true });
    assert!(body.other_documents.is_empty());
}

#[test]
fn request_for_an_unknown_language_does_not_fail() {
    let client = LlmState::new("k", "s");
    let mut request = request_at("", 0, 0, 3);
    request.language_id = "klingon".to_string();
    let body = client.request(&request);
    assert_eq!(body.document.editor_language, "klingon");
    assert_eq!(body.document.language, LANGUAGE_UNSPECIFIED);
    assert_eq!(body.document.cursor_offset, 0);
}

#[test]
fn language_codes_follow_the_table() {
    assert_eq!(LANGUAGE_UNSPECIFIED, 0);
    assert_eq!(language_code("c"), 1);
    assert_eq!(language_code("go"), 9);
    assert_eq!(language_code("python"), 33);
    assert_eq!(language_code("rust"), 36);
    assert_eq!(language_code("typescript"), 45);
    assert_eq!(language_code("ocaml_interface"), 65);
    assert_eq!(language_code(""), 0);
    assert_eq!(language_code("Rust"), 0);
    assert_eq!(language_code("rust "), 0);
    let table = languages();
    assert_eq!(table.len(), 65);
    for (index, (tag, code)) in table.iter().enumerate() {
        assert_eq!(*code, index + 1);
        assert_eq!(language_code(tag), *code);
    }
}
