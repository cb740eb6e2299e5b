//! What every provider has in common: the request that a completion trigger
//! makes, the forms that a provider's answer can take, and the suggestions
//! that each form turns into.

use crate::protocol::item_views;
use crate::protocol::simple_item;
use crate::protocol::ItemKind;
use crate::protocol::Position;
use crate::protocol::Range;
use crate::protocol::SuggestionItem;
use crate::protocol::SuggestionItemView;
use crate::protocol::TextEdit;
use crate::protocol::TextEditView;
use crate::text::trim_end;
use crate::text::trimmed_end;
use vstd::prelude::*;
use vstd::string::StringExecFns;

verus! {

/// One completion trigger: the document as it stood when the editor asked,
/// where the cursor was, and how many suggestions are wanted at most.
#[derive(Clone, Debug, PartialEq, Eq)]
pub struct CompletionRequest {
    pub contents: String,
    pub filepath: String,
    pub language_id: String,
    pub position: Position,
    pub suggestions: usize,
    pub client_name: String,
    pub client_version: String,
}

/// What is known of a provider: where it listens and the credentials of the
/// session.
#[derive(Clone, Debug, PartialEq, Eq)]
pub struct LlmState {
    pub auth_url: String,
    pub api_key: String,
    pub session_id: String,
}

/// A provider of code suggestions.
///
/// One completion trigger makes one call: [`LlmClientApi::request`] says
/// what to send, the caller sends it once and reports how the call ended,
/// and [`LlmClientApi::completion`] turns that ending into suggestions.
/// Providers differ in what they are sent. What the editor gets is the same
/// for all of them, and it is always a list: see [`suggestions_for`].
pub trait LlmClientApi: Sized {
    /// What the provider is sent for one completion trigger.
    type Request;

    /// A provider that is talked to with these credentials.
    fn new(api_key: &str, session_id: &str) -> Self;

    /// Reserved for conversations; does nothing.
    fn chat(&self);

    /// What to send for `completion_request`.
    fn request(&self, completion_request: &CompletionRequest) -> Self::Request;

    /// The suggestions for `completion_request`, once the call has ended
    /// with `reply`.
    fn completion(&self, completion_request: &CompletionRequest, reply: ProviderReply) -> (items:
        Vec<SuggestionItem>)
        requires
            completion_request.position.line < u32::MAX,
        ensures
            item_views(items@) == suggestions_for(
                completion_request.position.line,
                completion_request.suggestions as nat,
                reply@,
            ),
    ;
}

/// The body that a response with a given status is expected to carry.
#[derive(Clone, Copy, Debug, PartialEq, Eq, Structural)]
pub enum BodyKind {
    /// A list of completions.
    Completions,
    /// An error: a code and a message.
    ProviderError,
}

/// The status of a response that carries completions.
pub const STATUS_OK: u16 = 200;

/// Which body a response with `status` is expected to carry: completions
/// where the status reports success, an error otherwise.
pub fn expected_body(status: u16) -> (kind: BodyKind)
    ensures
        kind == (if status == STATUS_OK {
            BodyKind::Completions
        } else {
            BodyKind::ProviderError
        }),
{
    if status == STATUS_OK {
        BodyKind::Completions
    } else {
        BodyKind::ProviderError
    }
}

/// How one call to a provider ended.
#[derive(Clone, Debug, PartialEq, Eq)]
pub enum ProviderReply {
    /// No response arrived: the connection failed or timed out.
    Unreachable,
    /// The provider reported success and its body held these completions,
    /// in its order; `None` where the body named no list at all.
    Completions { items: Option<Vec<String>> },
    /// The provider reported success, but its body could not be decoded;
    /// `error` says why.
    Undecodable { error: String },
    /// The provider refused the call and said why.
    Rejected { code: String, message: String },
    /// The provider refused the call and its body said nothing that could
    /// be decoded.
    Unrecognised,
}

/// What a [`ProviderReply`] says, over the characters of its texts.
pub enum ProviderReplyView {
    Unreachable,
    Completions { items: Option<Seq<Seq<char>>> },
    Undecodable { error: Seq<char> },
    Rejected { code: Seq<char>, message: Seq<char> },
    Unrecognised,
}

/// The texts of a list of strings.
pub open spec fn string_views(strings: Seq<String>) -> Seq<Seq<char>> {
    strings.map_values(|s: String| s@)
}

impl View for ProviderReply {
    type V = ProviderReplyView;

    open spec fn view(&self) -> ProviderReplyView {
        match *self {
            ProviderReply::Unreachable => ProviderReplyView::Unreachable,
            ProviderReply::Completions { items: None } => ProviderReplyView::Completions {
                items: None,
            },
            ProviderReply::Completions { items: Some(items) } => ProviderReplyView::Completions {
                items: Some(string_views(items@)),
            },
            ProviderReply::Undecodable { error } => ProviderReplyView::Undecodable {
                error: error@,
            },
            ProviderReply::Rejected { code, message } => ProviderReplyView::Rejected {
                code: code@,
                message: message@,
            },
            ProviderReply::Unrecognised => ProviderReplyView::Unrecognised,
        }
    }
}

/// The edit that puts `text` in the place of line `line`: it reaches from
/// the start of that line to the start of the next, and ends the new line
/// with a line break.
pub open spec fn line_edit(line: u32, text: Seq<char>) -> TextEditView
    recommends
        line < u32::MAX,
{
    TextEditView {
        range: Range {
            start: Position { line, character: 0 },
            end: Position { line: (line + 1) as u32, character: 0 },
        },
        new_text: text.push('\n'),
    }
}

/// The suggestion that a completion `text` makes for a cursor in line
/// `line`: its label is the text without the white space that it ends in.
pub open spec fn completion_item(line: u32, text: Seq<char>) -> SuggestionItemView
    recommends
        line < u32::MAX,
{
    SuggestionItemView {
        label: trimmed_end(text),
        detail: None,
        kind: Some(ItemKind::Text),
        text_edit: Some(line_edit(line, text)),
    }
}

/// The suggestions that a list of completions makes: one for each of the
/// first `limit` completions, in the provider's order.
pub open spec fn completion_items(line: u32, texts: Seq<Seq<char>>, limit: nat) -> Seq<
    SuggestionItemView,
>
    recommends
        line < u32::MAX,
{
    Seq::new(
        if limit <= texts.len() {
            limit
        } else {
            texts.len()
        },
        |i: int| completion_item(line, texts[i]),
    )
}

/// What stands beside the error of a body that could not be decoded.
pub open spec fn undecodable_detail() -> Seq<char> {
    "JsonOk Err"@
}

/// What stands beside the empty label of a refusal that said nothing.
pub open spec fn unrecognised_detail() -> Seq<char> {
    "Json Ok Error"@
}

/// The suggestions that the editor gets for a completion trigger in line
/// `line` that wanted at most `limit` suggestions, once the provider's call
/// has ended with `reply`. No ending is an error for the editor:
///
/// - no response gives no suggestion;
/// - completions give one suggestion each, up to `limit`;
/// - a body that could not be decoded gives one item that shows the error;
/// - a refusal gives one item that shows the provider's code and message;
/// - a refusal that said nothing gives one item with an empty label.
pub open spec fn suggestions_for(line: u32, limit: nat, reply: ProviderReplyView) -> Seq<
    SuggestionItemView,
>
    recommends
        line < u32::MAX,
{
    match reply {
        ProviderReplyView::Unreachable => Seq::<SuggestionItemView>::empty(),
        ProviderReplyView::Completions { items: None } => Seq::<SuggestionItemView>::empty(),
        ProviderReplyView::Completions { items: Some(texts) } => completion_items(
            line,
            texts,
            limit,
        ),
        ProviderReplyView::Undecodable { error } => seq![simple_item(error, undecodable_detail())],
        ProviderReplyView::Rejected { code, message } => seq![simple_item(code, message)],
        ProviderReplyView::Unrecognised => seq![
            simple_item(Seq::<char>::empty(), unrecognised_detail()),
        ],
    }
}

/// A call that got no response gives the editor an empty list.
pub proof fn lemma_unreachable_gives_nothing(line: u32, limit: nat)
    ensures
        suggestions_for(line, limit, ProviderReplyView::Unreachable).len() == 0,
{
}

/// The editor never gets more suggestions than it asked for, but for the
/// one item that reports what went wrong.
pub proof fn lemma_suggestions_bounded(line: u32, limit: nat, reply: ProviderReplyView)
    ensures
        suggestions_for(line, limit, reply).len() <= limit || suggestions_for(
            line,
            limit,
            reply,
        ).len() == 1,
        reply is Completions ==> suggestions_for(line, limit, reply).len() <= limit,
{
}

/// The suggestion that the completion `text` makes for a cursor in line
/// `line`.
pub fn make_completion_item(line: u32, text: &str) -> (item: SuggestionItem)
    requires
        line < u32::MAX,
    ensures
        item@ == completion_item(line, text@),
{
    let mut new_text = String::from_str(text);
    new_text.append("\n");
    proof {
        reveal_strlit("\n");
        assert(new_text@ =~= text@.push('\n'));
    }
    let range = Range {
        start: Position { line, character: 0 },
        end: Position { line: line + 1, character: 0 },
    };
    SuggestionItem {
        label: String::from_str(trim_end(text)),
        detail: None,
        kind: Some(ItemKind::Text),
        text_edit: Some(TextEdit { range, new_text }),
    }
}

/// Turns the ending of a provider's call into the suggestions that the
/// editor gets.
pub fn suggestions(line: u32, limit: usize, reply: ProviderReply) -> (items: Vec<SuggestionItem>)
    requires
        line < u32::MAX,
    ensures
        item_views(items@) == suggestions_for(line, limit as nat, reply@),
{
    let mut items: Vec<SuggestionItem> = Vec::new();
    match reply {
        ProviderReply::Unreachable => {},
        ProviderReply::Completions { items: None } => {},
        ProviderReply::Completions { items: Some(texts) } => {
            let mut i: usize = 0;
            while i < texts.len() && i < limit
                invariant
                    line < u32::MAX,
                    i <= texts.len(),
                    i <= limit,
                    items@.len() == i,
                    forall|j: int|
                        0 <= j < i ==> (#[trigger] items@[j])@ == completion_item(line, texts@[j]@),
                decreases texts.len() - i,
            {
                items.push(make_completion_item(line, texts[i].as_str()));
                i = i + 1;
            }
            assert(item_views(items@) =~= completion_items(
                line,
                string_views(texts@),
                limit as nat,
            ));
        },
        ProviderReply::Undecodable { error } => {
            items.push(SuggestionItem::new_simple(error, String::from_str("JsonOk Err")));
            assert(item_views(items@) =~= seq![simple_item(error@, undecodable_detail())]);
        },
        ProviderReply::Rejected { code, message } => {
            items.push(SuggestionItem::new_simple(code, message));
            assert(item_views(items@) =~= seq![simple_item(code@, message@)]);
        },
        ProviderReply::Unrecognised => {
            items.push(
                SuggestionItem::new_simple(String::new(), String::from_str("Json Ok Error")),
            );
            assert(item_views(items@) =~= seq![
                simple_item(Seq::<char>::empty(), unrecognised_detail()),
            ]);
        },
    }
    if items.len() == 0 {
        assert(item_views(items@) =~= Seq::<SuggestionItemView>::empty());
    }
    items
}

} // verus!
