//! The Codeium provider: what it is sent for a completion trigger, and what
//! its answers turn into.

use crate::protocol::SuggestionItem;
use crate::providers::codeium_types::language_code;
use crate::providers::codeium_types::language_code_of;
use crate::providers::llm_api::suggestions;
use crate::providers::llm_api::CompletionRequest;
use crate::providers::llm_api::LlmClientApi;
use crate::providers::llm_api::LlmState;
use crate::providers::llm_api::ProviderReply;
use crate::text::offset_at;
use crate::text::offset_of;
use vstd::prelude::*;
use vstd::string::StringExecFns;

verus! {

/// Where the provider takes completion calls.
pub open spec fn completions_url() -> Seq<char> {
    "https://web-backend.codeium.com/exa.language_server_pb.LanguageServerService/GetCompletions"@
}

/// The value of the header that authorises a call: the scheme, then the API
/// key and the session joined by a hyphen.
pub open spec fn authorization_of(api_key: Seq<char>, session_id: Seq<char>) -> Seq<char> {
    "Basic "@ + api_key + "-"@ + session_id
}

/// The headers that every call carries, by name, in the order in which they
/// are set.
pub open spec fn headers_of(api_key: Seq<char>, session_id: Seq<char>) -> Seq<
    (Seq<char>, Seq<char>),
> {
    seq![
        ("accept-encoding"@, "gzip, deflate, br"@),
        ("authorization"@, authorization_of(api_key, session_id)),
        ("content-type"@, "application/json"@),
        ("connection"@, "keep-alive"@),
    ]
}

/// A list of headers as values.
pub open spec fn header_views(headers: Seq<(String, String)>) -> Seq<(Seq<char>, Seq<char>)> {
    headers.map_values(|h: (String, String)| (h.0@, h.1@))
}

/// Who is calling, as the provider wants to be told.
#[derive(Clone, Debug, PartialEq, Eq)]
pub struct Metadata {
    pub ide_name: String,
    pub ide_version: String,
    pub extension_version: String,
    pub extension_name: String,
    pub api_key: String,
    pub session_id: String,
}

/// The document that completions are wanted for, and where in it.
#[derive(Clone, Debug, PartialEq, Eq)]
pub struct Document {
    pub editor_language: String,
    pub language: usize,
    pub cursor_offset: usize,
    pub line_ending: String,
    pub absolute_path: String,
    pub relative_path: String,
    pub text: String,
}

/// How the editor indents.
#[derive(Clone, Copy, Debug, PartialEq, Eq, Structural)]
pub struct EditorOptions {
    pub tab_size: usize,
    pub insert_spaces: bool,
}

/// The body of one completion call.
#[derive(Clone, Debug, PartialEq, Eq)]
pub struct CodeiumRequest {
    pub metadata: Metadata,
    pub document: Document,
    pub editor_options: EditorOptions,
    pub other_documents: Vec<String>,
}

impl LlmState {
    /// The headers that every call to the provider carries.
    pub fn headers(&self) -> (headers: Vec<(String, String)>)
        ensures
            header_views(headers@) == headers_of(self.api_key@, self.session_id@),
    {
        let mut authorization = String::from_str("Basic ");
        authorization.append(self.api_key.as_str());
        authorization.append("-");
        authorization.append(self.session_id.as_str());
        let headers = vec![
            (String::from_str("accept-encoding"), String::from_str("gzip, deflate, br")),
            (String::from_str("authorization"), authorization),
            (String::from_str("content-type"), String::from_str("application/json")),
            (String::from_str("connection"), String::from_str("keep-alive")),
        ];
        assert(header_views(headers@) =~= headers_of(self.api_key@, self.session_id@));
        headers
    }
}

impl LlmClientApi for LlmState {
    type Request = CodeiumRequest;

    fn new(api_key: &str, session_id: &str) -> (state: LlmState)
        ensures
            state.auth_url@ == completions_url(),
            state.api_key@ == api_key@,
            state.session_id@ == session_id@,
    {
        LlmState {
            auth_url: String::from_str(
                "https://web-backend.codeium.com/exa.language_server_pb.LanguageServerService/GetCompletions",
            ),
            api_key: String::from_str(api_key),
            session_id: String::from_str(session_id),
        }
    }

    fn chat(&self) {
    }

    /// The body of the call for `completion_request`: the session's
    /// credentials, the document with its path in both path fields, its
    /// language under the provider's number, its whole text and the offset
    /// of the cursor in it, and the editor options that never change.
    fn request(&self, completion_request: &CompletionRequest) -> (body: CodeiumRequest)
        ensures
            body.metadata.ide_name@ == "web"@,
            body.metadata.ide_version@ == "unknown"@,
            body.metadata.extension_version@ == "0.1.0"@,
            body.metadata.extension_name@ == "llm-lsp"@,
            body.metadata.api_key == self.api_key,
            body.metadata.session_id == self.session_id,
            body.document.editor_language == completion_request.language_id,
            body.document.language == language_code_of(completion_request.language_id@),
            body.document.cursor_offset == offset_at(
                completion_request.contents@,
                completion_request.position.line as nat,
                completion_request.position.character as nat,
            ),
            body.document.line_ending@ == "\n"@,
            body.document.absolute_path == completion_request.filepath,
            body.document.relative_path == completion_request.filepath,
            body.document.text == completion_request.contents,
            body.editor_options == (EditorOptions { tab_size: 2, insert_spaces: true }),
            body.other_documents@.len() == 0,
    {
        CodeiumRequest {
            metadata: Metadata {
                ide_name: String::from_str("web"),
                ide_version: String::from_str("unknown"),
                extension_version: String::from_str("0.1.0"),
                extension_name: String::from_str("llm-lsp"),
                api_key: self.api_key.clone(),
                session_id: self.session_id.clone(),
            },
            document: Document {
                editor_language: completion_request.language_id.clone(),
                language: language_code(completion_request.language_id.as_str()),
                cursor_offset: offset_of(
                    completion_request.contents.as_str(),
                    completion_request.position.line,
                    completion_request.position.character,
                ),
                line_ending: String::from_str("\n"),
                absolute_path: completion_request.filepath.clone(),
                relative_path: completion_request.filepath.clone(),
                text: completion_request.contents.clone(),
            },
            editor_options: EditorOptions { tab_size: 2, insert_spaces: true },
            other_documents: Vec::new(),
        }
    }

    /// The suggestions for `completion_request`, once the call has ended
    /// with `reply`: one for each completion up to the number wanted, each
    /// replacing the line of the cursor, or the one item that says what
    /// went wrong.
    fn completion(&self, completion_request: &CompletionRequest, reply: ProviderReply) -> (items:
        Vec<SuggestionItem>) {
        suggestions(completion_request.position.line, completion_request.suggestions, reply)
    }
}

} // verus!
