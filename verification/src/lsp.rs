//! What the server does with each message of the editor.

use crate::configs::str_views;
use crate::configs::Command;
use crate::protocol::change_views;
use crate::protocol::ClientIdentity;
use crate::protocol::ContentChange;
use crate::protocol::Position;
use crate::protocol::ServerCapabilities;
use crate::protocol::SyncKind;
use crate::providers::llm_api::string_views;
use crate::providers::llm_api::CompletionRequest;
use crate::providers::llm_api::LlmClientApi;
use crate::server::LlmLanguageServer;
use crate::server::MAX_SUGGESTIONS;
use crate::state::changed;
use crate::state::removed;
use crate::state::snapshot_of;
use crate::state::upserted;
use async_lsp::lsp_types::Url;
use vstd::prelude::*;
use vstd::string::StringExecFns;

verus! {

/// The name recorded for an editor that did not say who it is.
pub open spec fn unnamed_client() -> Seq<char> {
    "web"@
}

/// The version recorded for an editor that did not say which it is.
pub open spec fn unknown_version() -> Seq<char> {
    "unknown"@
}

/// The name that is recorded for an editor that introduced itself with
/// `client`.
pub open spec fn client_name_of(client: Option<ClientIdentity>) -> Seq<char> {
    match client {
        Some(identity) => identity.name@,
        None => unnamed_client(),
    }
}

/// The version that is recorded for an editor that introduced itself with
/// `client`.
pub open spec fn client_version_of(client: Option<ClientIdentity>) -> Seq<char> {
    match client {
        Some(ClientIdentity { name: _, version: Some(version) }) => version@,
        _ => unknown_version(),
    }
}

/// The path of the URL that `uri` spells, percent-encoded as the URL holds
/// it, or `None` where `uri` does not parse as an absolute URL.
pub uninterp spec fn url_path(uri: Seq<char>) -> Option<Seq<char>>;

/// Parses `uri` with `Url::parse` of the `url` crate, as `lsp_types` hands
/// it on, and reads the path of the result with `Url::path`.
///
/// This is believed, not proved: the parser reads nothing but the string
/// that it is given, so the same `uri` always gives the same result. What
/// the result is for a given `uri` is left to the parser; nothing here says
/// when it is `Some`.
#[verifier::external_body]
fn parse_path(uri: &str) -> (path: Option<String>)
    ensures
        match path {
            Some(p) => url_path(uri@) == Some(p@),
            None => url_path(uri@) is None,
        },
{
    match Url::parse(uri) {
        Ok(url) => Some(url.path().to_owned()),
        Err(_) => None,
    }
}

/// The file path that stands for the document `uri` where `parsed` is what
/// parsing `uri` as a URL gave: the path of the URL, or `uri` as it is
/// where it is no URL.
pub open spec fn filepath_of(uri: Seq<char>, parsed: Option<Seq<char>>) -> Seq<char> {
    match parsed {
        Some(path) => path,
        None => uri,
    }
}

/// The file path that stands for the document `uri`, given what parsing
/// `uri` as a URL gave.
pub fn document_path(uri: &str, parsed: Option<String>) -> (filepath: String)
    ensures
        filepath@ == filepath_of(
            uri@,
            match parsed {
                Some(path) => Some(path@),
                None => None,
            },
        ),
{
    match parsed {
        Some(path) => path,
        None => String::from_str(uri),
    }
}

/// The keys of a list of commands, in order.
pub open spec fn command_keys(commands: Seq<Command<'_>>) -> Seq<Seq<char>> {
    commands.map_values(|c: Command<'_>| c.key@)
}

/// The strings of `strs`, each as an owned `String`.
pub fn owned_strings(strs: &Vec<&str>) -> (out: Vec<String>)
    ensures
        string_views(out@) == str_views(strs@),
{
    let mut out: Vec<String> = Vec::new();
    for i in 0..strs.len()
        invariant
            out@.len() == i,
            forall|j: int| 0 <= j < i ==> (#[trigger] out@[j])@ == strs@[j]@,
    {
        out.push(String::from_str(strs[i]));
    }
    assert(string_views(out@) =~= str_views(strs@));
    out
}

/// The keys of `commands`, in order.
pub fn keys_of(commands: &Vec<Command<'_>>) -> (out: Vec<String>)
    ensures
        string_views(out@) == command_keys(commands@),
{
    let mut out: Vec<String> = Vec::new();
    for i in 0..commands.len()
        invariant
            out@.len() == i,
            forall|j: int| 0 <= j < i ==> (#[trigger] out@[j])@ == commands@[j].key@,
    {
        out.push(String::from_str(commands[i].key));
    }
    assert(string_views(out@) =~= command_keys(commands@));
    out
}

impl<'a, T: LlmClientApi> LlmLanguageServer<'a, T> {
    /// Starts the session: records who the editor is and says what the
    /// server can do. An editor that does not introduce itself is recorded
    /// as `web`, and one that names no version as of version `unknown`.
    pub fn initialize(&mut self, client: Option<ClientIdentity>) -> (capabilities:
        ServerCapabilities)
        ensures
            final(self).state.client().name@ == client_name_of(client),
            final(self).state.client().version@ == client_version_of(client),
            final(self).state@ == old(self).state@,
            final(self).commands == old(self).commands,
            final(self).trigger_characters == old(self).trigger_characters,
            final(self).llm_client == old(self).llm_client,
            capabilities.code_action_provider,
            !capabilities.resolve_provider,
            string_views(capabilities.trigger_characters@) == str_views(
                old(self).trigger_characters@,
            ),
            string_views(capabilities.commands@) == command_keys(old(self).commands@),
            capabilities.change == SyncKind::Incremental,
            capabilities.open_close,
    {
        let trigger_characters = owned_strings(&self.trigger_characters);
        let commands = keys_of(&self.commands);
        match client {
            Some(identity) => {
                let version = match identity.version {
                    Some(version) => version,
                    None => String::from_str("unknown"),
                };
                self.state.update_client_info(identity.name, version);
            },
            None => {
                self.state.update_client_info(
                    String::from_str("web"),
                    String::from_str("unknown"),
                );
            },
        }
        ServerCapabilities {
            code_action_provider: true,
            resolve_provider: false,
            trigger_characters,
            commands,
            change: SyncKind::Incremental,
            open_close: true,
        }
    }

    /// The editor opened `uri` with the text `text` in the language
    /// `language_id`.
    pub fn did_open(&mut self, uri: &str, text: String, language_id: String)
        ensures
            final(self).state@ == upserted(old(self).state@, uri@, text@, Some(language_id@)),
            final(self).state.client() == old(self).state.client(),
            final(self).commands == old(self).commands,
            final(self).trigger_characters == old(self).trigger_characters,
            final(self).llm_client == old(self).llm_client,
    {
        self.state.upsert_file(uri, text, Some(language_id));
    }

    /// The editor changed `uri`: the changes apply in the order in which
    /// they stand. Changes to a document that is not open are dropped.
    pub fn did_change(&mut self, uri: &str, content_changes: Vec<ContentChange>)
        ensures
            final(self).state@ == changed(old(self).state@, uri@, change_views(content_changes@)),
            final(self).state.client() == old(self).state.client(),
            final(self).commands == old(self).commands,
            final(self).trigger_characters == old(self).trigger_characters,
            final(self).llm_client == old(self).llm_client,
    {
        self.state.change_file(uri, &content_changes);
    }

    /// The editor closed `uri`.
    pub fn did_close(&mut self, uri: &str)
        ensures
            final(self).state@ == removed(old(self).state@, uri@),
            final(self).state.client() == old(self).state.client(),
            final(self).commands == old(self).commands,
            final(self).trigger_characters == old(self).trigger_characters,
            final(self).llm_client == old(self).llm_client,
    {
        self.state.remove_file(uri);
    }

    /// The request that a completion trigger in `uri` at `position` makes,
    /// where `filepath` is the path that the provider is to be told. The
    /// result holds the document as it stands now; a change that arrives
    /// later does not reach it. A document that is not open counts as empty.
    pub fn completion_request(&self, uri: &str, filepath: String, position: Position) -> (request:
        CompletionRequest)
        ensures
            request.contents@ == snapshot_of(self.state@, uri@).text,
            request.language_id@ == snapshot_of(self.state@, uri@).language_id,
            request.filepath == filepath,
            request.position == position,
            request.suggestions == MAX_SUGGESTIONS,
            request.client_name == self.state.client().name,
            request.client_version == self.state.client().version,
    {
        let (contents, language_id) = self.state.snapshot(uri);
        let client = self.state.client_info();
        CompletionRequest {
            contents,
            filepath,
            language_id,
            position,
            suggestions: MAX_SUGGESTIONS,
            client_name: client.name.clone(),
            client_version: client.version.clone(),
        }
    }

    /// The editor asked for completions in `uri` at `position`. The request
    /// holds the document as it stands now, under the path of its URI; a
    /// document that is not open counts as empty.
    pub fn completion(&self, uri: &str, position: Position) -> (request: CompletionRequest)
        ensures
            request.contents@ == snapshot_of(self.state@, uri@).text,
            request.language_id@ == snapshot_of(self.state@, uri@).language_id,
            request.filepath@ == filepath_of(uri@, url_path(uri@)),
            request.position == position,
            request.suggestions == MAX_SUGGESTIONS,
            request.client_name == self.state.client().name,
            request.client_version == self.state.client().version,
    {
        let filepath = document_path(uri, parse_path(uri));
        self.completion_request(uri, filepath, position)
    }
}

} // verus!
