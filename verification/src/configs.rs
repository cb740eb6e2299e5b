//! What the server is configured with: the commands and trigger characters
//! that it announces to the editor, and the settings of each provider.

use crate::text::str_eq;
use vstd::prelude::*;
use vstd::string::StringExecFns;

verus! {

/// A command that the server offers to the editor.
pub struct Command<'a> {
    pub key: &'a str,
    pub label: &'a str,
    pub query: &'a str,
}

/// A command as three texts: its key, its label and its query.
pub struct CommandView {
    pub key: Seq<char>,
    pub label: Seq<char>,
    pub query: Seq<char>,
}

impl<'a> View for Command<'a> {
    type V = CommandView;

    open spec fn view(&self) -> CommandView {
        CommandView { key: self.key@, label: self.label@, query: self.query@ }
    }
}

/// The commands that the server offers, in the order in which it announces
/// them.
pub open spec fn default_commands() -> Seq<CommandView> {
    seq![
        CommandView {
            key: "resolve_diagnostics"@,
            label: "Resolve diagnostics"@,
            query: "Resolve the diagnostics for this code."@,
        },
        CommandView {
            key: "generate_docs"@,
            label: "Generate documentation"@,
            query: "Add documentation to this code."@,
        },
        CommandView {
            key: "improve_code"@,
            label: "Improve code"@,
            query: "Improve this code."@,
        },
        CommandView {
            key: "refactor_from_comment"@,
            label: "Refactor code from a comment"@,
            query: "Refactor this code based on the comment."@,
        },
        CommandView {
            key: "write_test"@,
            label: "Write a unit test"@,
            query: "Write a unit test for this code. Do not include any imports."@,
        },
    ]
}

/// The characters after which the editor asks for completions.
pub open spec fn default_trigger_characters() -> Seq<Seq<char>> {
    seq!["{"@, "("@, " "@]
}

/// The texts of a list of string slices.
pub open spec fn str_views(strs: Seq<&str>) -> Seq<Seq<char>> {
    strs.map_values(|s: &str| s@)
}

/// A list of commands, each as its three texts.
pub open spec fn command_views(commands: Seq<Command<'_>>) -> Seq<CommandView> {
    commands.map_values(|c: Command<'_>| c@)
}

/// The static part of the server's configuration.
pub struct LspConfig<'a> {
    pub commands: Vec<Command<'a>>,
    pub trigger_characters: Vec<&'a str>,
}

impl<'a> LspConfig<'a> {
    /// The configuration that the server starts with.
    pub fn init() -> (config: Self)
        ensures
            command_views(config.commands@) == default_commands(),
            str_views(config.trigger_characters@) == default_trigger_characters(),
    {
        LspConfig {
            commands: Self::get_commands(),
            trigger_characters: Self::get_trigger_characters(),
        }
    }

    /// The commands that the server offers.
    pub fn get_commands() -> (commands: Vec<Command<'a>>)
        ensures
            command_views(commands@) == default_commands(),
    {
        let commands = vec![
            Command {
                key: "resolve_diagnostics",
                label: "Resolve diagnostics",
                query: "Resolve the diagnostics for this code.",
            },
            Command {
                key: "generate_docs",
                label: "Generate documentation",
                query: "Add documentation to this code.",
            },
            Command {
                key: "improve_code",
                label: "Improve code",
                query: "Improve this code.",
            },
            Command {
                key: "refactor_from_comment",
                label: "Refactor code from a comment",
                query: "Refactor this code based on the comment.",
            },
            Command {
                key: "write_test",
                label: "Write a unit test",
                query: "Write a unit test for this code. Do not include any imports.",
            },
        ];
        assert(command_views(commands@) =~= default_commands());
        commands
    }

    /// The characters after which the editor asks for completions.
    pub fn get_trigger_characters() -> (characters: Vec<&'a str>)
        ensures
            str_views(characters@) == default_trigger_characters(),
    {
        let characters = vec!["{", "(", " "];
        assert(str_views(characters@) =~= default_trigger_characters());
        characters
    }
}

/// What a list of settings says: each key with the value of the last entry
/// that names it.
pub open spec fn settings_of(entries: Seq<(String, String)>) -> Map<Seq<char>, Seq<char>>
    decreases entries.len(),
{
    if entries.len() == 0 {
        Map::<Seq<char>, Seq<char>>::empty()
    } else {
        settings_of(entries.drop_last()).insert(entries.last().0@, entries.last().1@)
    }
}

/// Settings written after others override them key by key.
pub proof fn lemma_settings_concat(a: Seq<(String, String)>, b: Seq<(String, String)>)
    ensures
        settings_of(a + b) == settings_of(a).union_prefer_right(settings_of(b)),
    decreases b.len(),
{
    if b.len() == 0 {
        assert(a + b =~= a);
        assert(settings_of(a).union_prefer_right(settings_of(b)) =~= settings_of(a));
    } else {
        lemma_settings_concat(a, b.drop_last());
        assert((a + b).drop_last() =~= a + b.drop_last());
        assert((a + b).last() == b.last());
        assert(settings_of(a + b) =~= settings_of(a).union_prefer_right(settings_of(b)));
    }
}

/// The value that `entries` gives to `key`, if any.
pub fn setting(entries: &Vec<(String, String)>, key: &str) -> (value: Option<String>)
    ensures
        match value {
            Some(v) => settings_of(entries@).contains_key(key@) && v@ == settings_of(
                entries@,
            )[key@],
            None => !settings_of(entries@).contains_key(key@),
        },
{
    let mut found: Option<String> = None;
    proof {
        assert(entries@.take(0) =~= Seq::<(String, String)>::empty());
    }
    for i in 0..entries.len()
        invariant
            match found {
                Some(v) => settings_of(entries@.take(i as int)).contains_key(key@) && v@
                    == settings_of(entries@.take(i as int))[key@],
                None => !settings_of(entries@.take(i as int)).contains_key(key@),
            },
    {
        proof {
            assert(entries@.take(i + 1).drop_last() =~= entries@.take(i as int));
            assert(entries@.take(i + 1).last() == entries@[i as int]);
        }
        if str_eq(entries[i].0.as_str(), key) {
            found = Some(entries[i].1.clone());
        }
    }
    proof {
        assert(entries@.take(entries@.len() as int) =~= entries@);
    }
    found
}

/// The settings of every provider, as the configuration file holds them.
pub struct LlmConfig {
    pub codeium: Vec<(String, String)>,
    pub ollama: Vec<(String, String)>,
    pub openapi: Vec<(String, String)>,
    pub copilot: Vec<(String, String)>,
}

/// What an [`LlmConfig`] says: for each provider, its settings by key.
pub struct LlmConfigView {
    pub codeium: Map<Seq<char>, Seq<char>>,
    pub ollama: Map<Seq<char>, Seq<char>>,
    pub openapi: Map<Seq<char>, Seq<char>>,
    pub copilot: Map<Seq<char>, Seq<char>>,
}

impl View for LlmConfig {
    type V = LlmConfigView;

    open spec fn view(&self) -> LlmConfigView {
        LlmConfigView {
            codeium: settings_of(self.codeium@),
            ollama: settings_of(self.ollama@),
            openapi: settings_of(self.openapi@),
            copilot: settings_of(self.copilot@),
        }
    }
}

impl Default for LlmConfig {
    fn default() -> (config: LlmConfig)
        ensures
            config@.codeium == Map::<Seq<char>, Seq<char>>::empty(),
            config@.ollama == Map::<Seq<char>, Seq<char>>::empty(),
            config@.openapi == Map::<Seq<char>, Seq<char>>::empty(),
            config@.copilot == Map::<Seq<char>, Seq<char>>::empty(),
    {
        LlmConfig { codeium: Vec::new(), ollama: Vec::new(), openapi: Vec::new(), copilot: Vec::new() }
    }
}

/// The one provider that the server can talk to.
pub open spec fn supported_provider() -> Seq<char> {
    "codeium"@
}

/// What is said of a provider that the server cannot talk to. The message is
/// the same for every provider: the braces are part of it.
pub open spec fn unsupported_provider_message() -> Seq<char> {
    "Provider {provider} is not supported as of now!"@
}

/// The key under which a provider's API key is kept.
pub open spec fn api_key_setting() -> Seq<char> {
    "API_KEY"@
}

/// The key under which a provider's session is kept.
pub open spec fn session_id_setting() -> Seq<char> {
    "SESSION_ID"@
}

/// What a provider needs to be talked to.
#[derive(Clone, Debug, PartialEq, Eq)]
pub struct Credentials {
    pub api_key: String,
    pub session_id: String,
}

/// Why the server cannot start with a provider.
#[derive(Clone, Copy, Debug, PartialEq, Eq, Structural)]
pub enum StartupError {
    UnsupportedProvider,
    MissingApiKey,
    MissingSessionId,
}

/// What the server starts with for `provider`, given the configuration
/// `config`: the provider's API key and session, or the first thing that is
/// missing. Only the supported provider can be started with.
pub open spec fn credentials_of(config: LlmConfigView, provider: Seq<char>) -> Result<
    (Seq<char>, Seq<char>),
    StartupError,
> {
    if provider != supported_provider() {
        Err(StartupError::UnsupportedProvider)
    } else if !config.codeium.contains_key(api_key_setting()) {
        Err(StartupError::MissingApiKey)
    } else if !config.codeium.contains_key(session_id_setting()) {
        Err(StartupError::MissingSessionId)
    } else {
        Ok((config.codeium[api_key_setting()], config.codeium[session_id_setting()]))
    }
}

impl LlmConfig {
    /// The credentials that the server starts with for `provider`.
    pub fn credentials(&self, provider: &str) -> (found: Result<Credentials, StartupError>)
        ensures
            match found {
                Ok(c) => credentials_of(self@, provider@) == Ok::<
                    (Seq<char>, Seq<char>),
                    StartupError,
                >((c.api_key@, c.session_id@)),
                Err(e) => credentials_of(self@, provider@) == Err::<
                    (Seq<char>, Seq<char>),
                    StartupError,
                >(e),
            },
    {
        if !str_eq(provider, "codeium") {
            return Err(StartupError::UnsupportedProvider);
        }
        let api_key = match setting(&self.codeium, "API_KEY") {
            Some(value) => value,
            None => {
                return Err(StartupError::MissingApiKey);
            },
        };
        let session_id = match setting(&self.codeium, "SESSION_ID") {
            Some(value) => value,
            None => {
                return Err(StartupError::MissingSessionId);
            },
        };
        Ok(Credentials { api_key, session_id })
    }

    /// Adds `config_map` to the settings of `provider`; where a key is
    /// there already, the new value replaces the old one. Any provider but
    /// the supported one is refused and the configuration stays as it was.
    pub fn generate_config(&mut self, provider: String, config_map: Vec<(String, String)>) -> (done:
        Result<(), String>)
        ensures
            provider@ == supported_provider() ==> done is Ok && final(self)@ == (LlmConfigView {
                codeium: old(self)@.codeium.union_prefer_right(settings_of(config_map@)),
                ..old(self)@
            }),
            provider@ != supported_provider() ==> *final(self) == *old(self) && (done matches Err(
                message,
            ) && message@ == unsupported_provider_message()),
    {
        if str_eq(provider.as_str(), "codeium") {
            let mut config_map = config_map;
            proof {
                lemma_settings_concat(self.codeium@, config_map@);
            }
            self.codeium.append(&mut config_map);
            Ok(())
        } else {
            Err(String::from_str("Provider {provider} is not supported as of now!"))
        }
    }

    /// The settings of `provider`. Any provider but the supported one is
    /// refused.
    pub fn get_configs(&self, provider: &str) -> (found: Result<&Vec<(String, String)>, String>)
        ensures
            provider@ == supported_provider() ==> (found matches Ok(entries) && *entries
                == self.codeium),
            provider@ != supported_provider() ==> (found matches Err(message) && message@
                == unsupported_provider_message()),
    {
        if str_eq(provider, "codeium") {
            Ok(&self.codeium)
        } else {
            Err(String::from_str("Provider {provider} is not supported as of now!"))
        }
    }
}

} // verus!
