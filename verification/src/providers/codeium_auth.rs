//! Getting an API key from the provider: the texts that the steps of the
//! exchange show and send, and what it leaves in the configuration.

use crate::configs::api_key_setting;
use crate::configs::session_id_setting;
use crate::configs::settings_of;
use crate::text::trim;
use crate::text::trimmed;
use vstd::prelude::*;
use vstd::string::StringExecFns;

verus! {

/// Where the user gets a token for the session `session_id`.
pub open spec fn auth_url_of(session_id: Seq<char>) -> Seq<char> {
    "https://www.codeium.com/profile?response_type=token&redirect_uri=vim-show-auth-token&state="@
        + session_id + "&scope=openid%20profile%20email&redirect_parameters_type=query"@
}

/// What the user is asked for.
pub const TOKEN_PROMPT: &'static str = "Authentication Token:";

/// Where a token is exchanged for an API key.
pub const REGISTER_URL: &'static str = "https://api.codeium.com/register_user/";

/// What the user is told to do to get a token.
pub open spec fn token_help_of(session_id: Seq<char>) -> Seq<char> {
    "Visit the following URL: "@ + auth_url_of(session_id)
}

/// The field that carries the token when it is exchanged.
pub open spec fn token_field() -> Seq<char> {
    "firebase_id_token"@
}

/// Where the user gets a token for the session `session_id`.
pub fn auth_url(session_id: &str) -> (url: String)
    ensures
        url@ == auth_url_of(session_id@),
{
    let mut url = String::from_str(
        "https://www.codeium.com/profile?response_type=token&redirect_uri=vim-show-auth-token&state=",
    );
    url.append(session_id);
    url.append("&scope=openid%20profile%20email&redirect_parameters_type=query");
    url
}

/// What the user is told to do to get a token for the session
/// `session_id`.
pub fn token_help(session_id: &str) -> (help: String)
    ensures
        help@ == token_help_of(session_id@),
{
    let mut help = String::from_str("Visit the following URL: ");
    help.append(auth_url(session_id).as_str());
    help
}

/// The token that the user meant: what was typed, without the white space
/// around it.
pub fn entered_token(input: &str) -> (token: String)
    ensures
        token@ == trimmed(input@),
{
    String::from_str(trim(input))
}

/// What is sent to exchange `auth_token` for an API key: the token under
/// the field that the provider reads it from.
pub fn register_payload(auth_token: String) -> (payload: Vec<(String, String)>)
    ensures
        payload@.len() == 1,
        payload@[0].0@ == token_field(),
        payload@[0].1 == auth_token,
{
    vec![(String::from_str("firebase_id_token"), auth_token)]
}

/// What a finished exchange adds to the provider's settings: the API key
/// and the session that it belongs to.
pub fn registered_settings(api_key: String, session_id: String) -> (entries: Vec<
    (String, String),
>)
    ensures
        settings_of(entries@) == Map::<Seq<char>, Seq<char>>::empty().insert(
            api_key_setting(),
            api_key@,
        ).insert(session_id_setting(), session_id@),
{
    let entries = vec![
        (String::from_str("API_KEY"), api_key),
        (String::from_str("SESSION_ID"), session_id),
    ];
    proof {
        reveal_with_fuel(settings_of, 3);
        assert(entries@.drop_last().drop_last() =~= Seq::<(String, String)>::empty());
    }
    entries
}

} // verus!
