//! The server of one editor session: the configuration that it announces,
//! the documents that the editor has open, and the provider that it asks.

use crate::configs::Command;
use crate::configs::LspConfig;
use crate::providers::llm_api::LlmClientApi;
use crate::state::LanguageState;
use crate::state::Snapshot;
use vstd::prelude::*;

verus! {

/// How many suggestions a completion trigger wants at most.
pub const MAX_SUGGESTIONS: usize = 3;

/// The event that a timer raises once a second.
#[derive(Clone, Copy, Debug, PartialEq, Eq, Structural)]
pub struct TickEvent;

/// The server of one editor session.
pub struct LlmLanguageServer<'a, T> where T: LlmClientApi {
    pub commands: Vec<Command<'a>>,
    pub trigger_characters: Vec<&'a str>,
    pub state: LanguageState,
    pub llm_client: T,
}

impl<'a, T: LlmClientApi> LlmLanguageServer<'a, T> {
    /// A server with the given configuration and provider, no open document
    /// and an editor not yet known.
    pub fn new(lsp_config: LspConfig<'a>, llm_client: T) -> (server: Self)
        ensures
            server.commands == lsp_config.commands,
            server.trigger_characters == lsp_config.trigger_characters,
            server.llm_client == llm_client,
            server.state@ == Map::<Seq<char>, Snapshot>::empty(),
            server.state.client().name@ == Seq::<char>::empty(),
            server.state.client().version@ == Seq::<char>::empty(),
    {
        LlmLanguageServer {
            commands: lsp_config.commands,
            trigger_characters: lsp_config.trigger_characters,
            state: LanguageState::new(),
            llm_client,
        }
    }

    /// Takes a tick of the timer. Nothing is due on it, and the session goes
    /// on: the result says whether it does.
    pub fn on_tick(&mut self, _event: TickEvent) -> (goes_on: bool)
        ensures
            goes_on,
            *final(self) == *old(self),
    {
        true
    }
}

} // verus!
