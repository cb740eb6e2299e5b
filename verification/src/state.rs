//! The document store: the current text and language tag of every open
//! document, addressed by the document's URI.
//!
//! The store is an owned value. Every operation that changes it takes it by
//! `&mut`, so no reader can see a change half done; whoever shares the store
//! between tasks wraps it in the lock of their choice.

use crate::protocol::change_views;
use crate::protocol::ContentChange;
use crate::protocol::ContentChangeView;
use crate::text::char_index_at;
use crate::text::char_index_of;
use crate::text::offset_at;
use crate::text::offset_of;
use crate::text::splice;
use crate::text::spliced;
use vstd::hash_map::StringHashMap;
use vstd::prelude::*;

verus! {

/// What the store holds of one open document.
pub struct Document {
    pub text: String,
    pub language_id: String,
}

/// A document as a value: its text and its language tag. The tag is empty
/// until an open notification supplies one.
pub struct Snapshot {
    pub text: Seq<char>,
    pub language_id: Seq<char>,
}

impl View for Document {
    type V = Snapshot;

    open spec fn view(&self) -> Snapshot {
        Snapshot { text: self.text@, language_id: self.language_id@ }
    }
}

/// The open documents, by URI.
pub type Documents = Map<Seq<char>, Snapshot>;

/// What a read of a URI that is not open gives: no text, no tag.
pub open spec fn empty_snapshot() -> Snapshot {
    Snapshot { text: Seq::<char>::empty(), language_id: Seq::<char>::empty() }
}

/// What a read of `uri` gives.
pub open spec fn snapshot_of(documents: Documents, uri: Seq<char>) -> Snapshot {
    if documents.contains_key(uri) {
        documents[uri]
    } else {
        empty_snapshot()
    }
}

/// The documents after `uri` got the text `text`: the document is created
/// where it was not open, and its tag changes only if one is given.
pub open spec fn upserted(
    documents: Documents,
    uri: Seq<char>,
    text: Seq<char>,
    language_id: Option<Seq<char>>,
) -> Documents {
    let tag = match language_id {
        Some(tag) => tag,
        None => snapshot_of(documents, uri).language_id,
    };
    documents.insert(uri, Snapshot { text, language_id: tag })
}

/// The documents after `uri` was closed.
pub open spec fn removed(documents: Documents, uri: Seq<char>) -> Documents {
    documents.remove(uri)
}

/// The text that one change makes of `text`.
///
/// Without a range the new text replaces the whole document. With a range,
/// both ends are located in `text` as it stands, and the new text takes the
/// place of what lies between them; where the end lies before the start,
/// nothing is taken out and the new text goes in at the start.
pub open spec fn changed_text(text: Seq<char>, change: ContentChangeView) -> Seq<char> {
    match change.range {
        None => change.text,
        Some(range) => {
            let start = char_index_at(
                text,
                offset_at(text, range.start.line as nat, range.start.character as nat),
            );
            let end = char_index_at(
                text,
                offset_at(text, range.end.line as nat, range.end.character as nat),
            );
            spliced(text, start, end, change.text)
        },
    }
}

/// The text that a batch of changes makes of `text`: the changes apply in
/// the order in which they stand, each to the result of the one before.
pub open spec fn changed_text_all(text: Seq<char>, changes: Seq<ContentChangeView>) -> Seq<char>
    decreases changes.len(),
{
    if changes.len() == 0 {
        text
    } else {
        changed_text(changed_text_all(text, changes.drop_last()), changes.last())
    }
}

/// The documents after a batch of changes to `uri`. Changes to a URI that is
/// not open are dropped: a change never opens a document.
pub open spec fn changed(
    documents: Documents,
    uri: Seq<char>,
    changes: Seq<ContentChangeView>,
) -> Documents {
    if documents.contains_key(uri) {
        documents.insert(
            uri,
            Snapshot {
                text: changed_text_all(documents[uri].text, changes),
                language_id: documents[uri].language_id,
            },
        )
    } else {
        documents
    }
}

/// A read that follows an upsert with a tag gives exactly the text and the
/// tag that were written.
pub proof fn lemma_upsert_then_snapshot(
    documents: Documents,
    uri: Seq<char>,
    text: Seq<char>,
    language_id: Seq<char>,
)
    ensures
        snapshot_of(upserted(documents, uri, text, Some(language_id)), uri) == (Snapshot {
            text,
            language_id,
        }),
{
}

/// A read that follows an upsert without a tag gives the text that was
/// written and the tag that the document had before, empty if it was not
/// open.
pub proof fn lemma_upsert_keeps_tag(documents: Documents, uri: Seq<char>, text: Seq<char>)
    ensures
        snapshot_of(upserted(documents, uri, text, None), uri) == (Snapshot {
            text,
            language_id: snapshot_of(documents, uri).language_id,
        }),
{
}

/// A read that follows a close gives the empty snapshot, whatever the
/// document held before.
pub proof fn lemma_remove_then_snapshot(documents: Documents, uri: Seq<char>)
    ensures
        snapshot_of(removed(documents, uri), uri) == empty_snapshot(),
        !removed(documents, uri).contains_key(uri),
{
}

/// Opening, changing or closing one URI leaves what a read of any other URI
/// gives as it was.
pub proof fn lemma_other_documents_untouched(
    documents: Documents,
    uri: Seq<char>,
    other: Seq<char>,
    text: Seq<char>,
    language_id: Option<Seq<char>>,
    changes: Seq<ContentChangeView>,
)
    requires
        uri != other,
    ensures
        snapshot_of(upserted(documents, uri, text, language_id), other) == snapshot_of(
            documents,
            other,
        ),
        snapshot_of(changed(documents, uri, changes), other) == snapshot_of(documents, other),
        snapshot_of(removed(documents, uri), other) == snapshot_of(documents, other),
{
}

/// A batch of changes does what its first part followed by its second part
/// does: changes apply in the order in which they arrive.
pub proof fn lemma_changes_compose(
    text: Seq<char>,
    first: Seq<ContentChangeView>,
    second: Seq<ContentChangeView>,
)
    ensures
        changed_text_all(text, first + second) == changed_text_all(
            changed_text_all(text, first),
            second,
        ),
    decreases second.len(),
{
    if second.len() == 0 {
        assert(first + second =~= first);
    } else {
        lemma_changes_compose(text, first, second.drop_last());
        assert((first + second).drop_last() =~= first + second.drop_last());
        assert((first + second).last() == second.last());
    }
}

/// Two change notifications for one URI do what a single notification with
/// the changes of both, in that order, does.
pub proof fn lemma_change_notifications_compose(
    documents: Documents,
    uri: Seq<char>,
    first: Seq<ContentChangeView>,
    second: Seq<ContentChangeView>,
)
    ensures
        changed(changed(documents, uri, first), uri, second) =~= changed(
            documents,
            uri,
            first + second,
        ),
{
    if documents.contains_key(uri) {
        lemma_changes_compose(documents[uri].text, first, second);
    }
}

/// A change without a range makes the text of the change the whole text.
pub proof fn lemma_full_replacement(text: Seq<char>, replacement: Seq<char>)
    ensures
        changed_text(text, ContentChangeView { range: None, text: replacement }) == replacement,
{
}

/// Applies one change to `text`.
pub fn apply_change(text: &str, change: &ContentChange) -> (out: String)
    ensures
        out@ == changed_text(text@, change@),
{
    match &change.range {
        None => change.text.clone(),
        Some(range) => {
            let start = char_index_of(
                text,
                offset_of(text, range.start.line, range.start.character),
            );
            let end = char_index_of(text, offset_of(text, range.end.line, range.end.character));
            splice(text, start, end, change.text.as_str())
        },
    }
}

/// Applies a batch of changes to `text`, first to last.
pub fn apply_changes(text: &str, changes: &Vec<ContentChange>) -> (out: String)
    ensures
        out@ == changed_text_all(text@, change_views(changes@)),
{
    let mut out = text.to_owned();
    let ghost views = change_views(changes@);
    proof {
        assert(views.take(0) =~= Seq::<ContentChangeView>::empty());
    }
    for i in 0..changes.len()
        invariant
            views == change_views(changes@),
            out@ == changed_text_all(text@, views.take(i as int)),
    {
        proof {
            assert(views.take(i + 1).drop_last() =~= views.take(i as int));
            assert(views.take(i + 1).last() == changes@[i as int]@);
        }
        out = apply_change(out.as_str(), &changes[i]);
    }
    proof {
        assert(views.take(changes.len() as int) =~= views);
    }
    out
}

/// The editor at the other end of the session.
#[derive(Clone, Debug, PartialEq, Eq)]
pub struct ClientInfo {
    pub name: String,
    pub version: String,
}

impl Default for ClientInfo {
    fn default() -> (info: ClientInfo)
        ensures
            info.name@ == Seq::<char>::empty(),
            info.version@ == Seq::<char>::empty(),
    {
        ClientInfo { name: String::new(), version: String::new() }
    }
}

/// The state of one editor session: the open documents and who the editor
/// is.
pub struct LanguageState {
    documents: StringHashMap<Document>,
    client_info: ClientInfo,
}

impl View for LanguageState {
    type V = Documents;

    /// The open documents.
    closed spec fn view(&self) -> Documents {
        self.documents@.map_values(|d: Document| d@)
    }
}

impl LanguageState {
    /// Who the editor is, as last recorded.
    pub closed spec fn client(&self) -> ClientInfo {
        self.client_info
    }

    /// A session with no open document and an editor not yet known.
    pub fn new() -> (state: LanguageState)
        ensures
            state@ == Map::<Seq<char>, Snapshot>::empty(),
            state.client().name@ == Seq::<char>::empty(),
            state.client().version@ == Seq::<char>::empty(),
    {
        let state = LanguageState {
            documents: StringHashMap::new(),
            client_info: ClientInfo::default(),
        };
        assert(state@ =~= Map::<Seq<char>, Snapshot>::empty());
        state
    }

    /// The text of `uri`, empty where `uri` is not open.
    pub fn get_contents(&self, uri: &str) -> (text: String)
        ensures
            text@ == snapshot_of(self@, uri@).text,
    {
        match self.documents.get(uri) {
            Some(document) => document.text.clone(),
            None => String::new(),
        }
    }

    /// The language tag of `uri`, empty where `uri` is not open or was opened
    /// without one.
    pub fn get_language_id(&self, uri: &str) -> (language_id: String)
        ensures
            language_id@ == snapshot_of(self@, uri@).language_id,
    {
        match self.documents.get(uri) {
            Some(document) => document.language_id.clone(),
            None => String::new(),
        }
    }

    /// The text and the language tag of `uri` as they stand now.
    pub fn snapshot(&self, uri: &str) -> (pair: (String, String))
        ensures
            pair.0@ == snapshot_of(self@, uri@).text,
            pair.1@ == snapshot_of(self@, uri@).language_id,
    {
        match self.documents.get(uri) {
            Some(document) => (document.text.clone(), document.language_id.clone()),
            None => (String::new(), String::new()),
        }
    }

    /// Gives `uri` the text `content`; the language tag stays as it is.
    pub fn upsert_content(&mut self, uri: &str, content: String)
        ensures
            final(self)@ == upserted(old(self)@, uri@, content@, None),
            final(self).client() == old(self).client(),
    {
        let language_id = self.get_language_id(uri);
        self.documents.insert(uri.to_owned(), Document { text: content, language_id });
        assert(final(self)@ =~= upserted(old(self)@, uri@, content@, None));
    }

    /// Gives `uri` the text `content` and, where one is supplied, the
    /// language tag `language_id`. Opens the document if it was not open.
    pub fn upsert_file(&mut self, uri: &str, content: String, language_id: Option<String>)
        ensures
            final(self)@ == upserted(
                old(self)@,
                uri@,
                content@,
                match language_id {
                    Some(tag) => Some(tag@),
                    None => None,
                },
            ),
            final(self).client() == old(self).client(),
    {
        match language_id {
            Some(tag) => {
                self.documents.insert(uri.to_owned(), Document { text: content, language_id: tag });
                assert(final(self)@ =~= upserted(old(self)@, uri@, content@, Some(tag@)));
            },
            None => {
                self.upsert_content(uri, content);
            },
        }
    }

    /// Applies the changes of one notification to `uri`, first to last.
    /// Nothing happens where `uri` is not open.
    pub fn change_file(&mut self, uri: &str, changes: &Vec<ContentChange>)
        ensures
            final(self)@ == changed(old(self)@, uri@, change_views(changes@)),
            final(self).client() == old(self).client(),
    {
        let updated = match self.documents.get(uri) {
            Some(document) => Some(
                Document {
                    text: apply_changes(document.text.as_str(), changes),
                    language_id: document.language_id.clone(),
                },
            ),
            None => None,
        };
        match updated {
            Some(document) => {
                self.documents.insert(uri.to_owned(), document);
            },
            None => {},
        }
        assert(final(self)@ =~= changed(old(self)@, uri@, change_views(changes@)));
    }

    /// Closes `uri`: reads of it give the empty snapshot from now on.
    pub fn remove_file(&mut self, uri: &str)
        ensures
            final(self)@ == removed(old(self)@, uri@),
            final(self).client() == old(self).client(),
    {
        self.documents.remove(uri);
        assert(final(self)@ =~= removed(old(self)@, uri@));
    }

    /// Records who the editor is.
    pub fn update_client_info(&mut self, name: String, version: String)
        ensures
            final(self)@ == old(self)@,
            final(self).client().name == name,
            final(self).client().version == version,
    {
        self.client_info = ClientInfo { name, version };
    }

    /// Who the editor is, as last recorded.
    pub fn client_info(&self) -> (info: &ClientInfo)
        ensures
            *info == self.client(),
    {
        &self.client_info
    }
}

} // verus!
