//! The editor-facing values that the server reads and returns, as plain data:
//! positions and ranges, content changes, edits and suggestion items.

use vstd::prelude::*;

verus! {

/// A zero-based position in a document. `character` counts UTF-16 code units
/// from the start of the line.
#[derive(Clone, Copy, Debug, PartialEq, Eq, Structural)]
pub struct Position {
    pub line: u32,
    pub character: u32,
}

/// The stretch of a document from `start` up to, not including, `end`.
#[derive(Clone, Copy, Debug, PartialEq, Eq, Structural)]
pub struct Range {
    pub start: Position,
    pub end: Position,
}

/// One change of a change notification: `text` replaces the stretch `range`,
/// or the whole document where there is no range.
#[derive(Clone, Debug, PartialEq, Eq)]
pub struct ContentChange {
    pub range: Option<Range>,
    pub text: String,
}

/// What a [`ContentChange`] says, over the characters of its text.
pub struct ContentChangeView {
    pub range: Option<Range>,
    pub text: Seq<char>,
}

impl View for ContentChange {
    type V = ContentChangeView;

    open spec fn view(&self) -> ContentChangeView {
        ContentChangeView { range: self.range, text: self.text@ }
    }
}

/// The changes of one notification, in the order in which they arrived.
pub open spec fn change_views(changes: Seq<ContentChange>) -> Seq<ContentChangeView> {
    changes.map_values(|c: ContentChange| c@)
}

/// Who the editor says it is when the session starts.
#[derive(Clone, Debug, PartialEq, Eq)]
pub struct ClientIdentity {
    pub name: String,
    pub version: Option<String>,
}

/// How the editor is to report changes to an open document.
#[derive(Clone, Copy, Debug, PartialEq, Eq, Structural)]
pub enum SyncKind {
    /// Not at all.
    Off,
    /// With the whole text each time.
    Full,
    /// With the stretches that changed.
    Incremental,
}

/// What the server announces to the editor when the session starts.
#[derive(Clone, Debug, PartialEq, Eq)]
pub struct ServerCapabilities {
    /// Whether the server answers requests for code actions.
    pub code_action_provider: bool,
    /// Whether a completion item needs a second request to be complete.
    pub resolve_provider: bool,
    /// The characters after which the editor asks for completions.
    pub trigger_characters: Vec<String>,
    /// The keys of the commands that the server offers.
    pub commands: Vec<String>,
    /// How changes are to be reported.
    pub change: SyncKind,
    /// Whether the editor is to report that a document was opened or closed.
    pub open_close: bool,
}

/// An edit that an accepted suggestion performs: `new_text` replaces `range`.
#[derive(Clone, Debug, PartialEq, Eq)]
pub struct TextEdit {
    pub range: Range,
    pub new_text: String,
}

/// What a [`TextEdit`] says, over the characters of its text.
pub struct TextEditView {
    pub range: Range,
    pub new_text: Seq<char>,
}

impl View for TextEdit {
    type V = TextEditView;

    open spec fn view(&self) -> TextEditView {
        TextEditView { range: self.range, new_text: self.new_text@ }
    }
}

/// The kind that an editor shows beside a suggestion.
#[derive(Clone, Copy, Debug, PartialEq, Eq, Structural)]
pub enum ItemKind {
    Text,
}

/// One suggestion offered to the editor.
#[derive(Clone, Debug, PartialEq, Eq)]
pub struct SuggestionItem {
    pub label: String,
    pub detail: Option<String>,
    pub kind: Option<ItemKind>,
    pub text_edit: Option<TextEdit>,
}

/// What a [`SuggestionItem`] says, over the characters of its texts.
pub struct SuggestionItemView {
    pub label: Seq<char>,
    pub detail: Option<Seq<char>>,
    pub kind: Option<ItemKind>,
    pub text_edit: Option<TextEditView>,
}

impl View for SuggestionItem {
    type V = SuggestionItemView;

    open spec fn view(&self) -> SuggestionItemView {
        SuggestionItemView {
            label: self.label@,
            detail: match self.detail {
                Some(d) => Some(d@),
                None => None,
            },
            kind: self.kind,
            text_edit: match self.text_edit {
                Some(e) => Some(e@),
                None => None,
            },
        }
    }
}

/// A list of suggestions, in order.
pub open spec fn item_views(items: Seq<SuggestionItem>) -> Seq<SuggestionItemView> {
    items.map_values(|i: SuggestionItem| i@)
}

/// A suggestion that only shows `label` with `detail` beside it and edits
/// nothing.
pub open spec fn simple_item(label: Seq<char>, detail: Seq<char>) -> SuggestionItemView {
    SuggestionItemView { label, detail: Some(detail), kind: None, text_edit: None }
}

impl SuggestionItem {
    /// A suggestion that only shows `label` with `detail` beside it.
    pub fn new_simple(label: String, detail: String) -> (item: SuggestionItem)
        ensures
            item@ == simple_item(label@, detail@),
    {
        SuggestionItem { label, detail: Some(detail), kind: None, text_edit: None }
    }
}

} // verus!
