//! What the chat platform delivers: updates, messages, entities, documents.

use vstd::prelude::*;

verus! {

/// What an entity marks in the text of a message.
#[derive(Clone, Copy, Debug, PartialEq, Eq, Structural)]
pub enum EntityKind {
    Url,
    Other,
}

/// A marked span of a message's text. `offset` and `length` count UTF-16 code
/// units, not bytes and not characters.
#[derive(Clone, Copy, Debug, PartialEq, Eq, Structural)]
pub struct Entity {
    pub kind: EntityKind,
    pub offset: u32,
    pub length: u32,
}

/// A file attached to a message.
#[derive(Clone, Debug, PartialEq, Eq)]
pub struct Document {
    pub file_id: String,
    pub file_name: Option<String>,
}

/// One chat message.
#[derive(Clone, Debug, PartialEq, Eq)]
pub struct Message {
    pub id: i32,
    pub chat_id: i64,
    /// The sender's id; `None` where the platform names no sender.
    pub sender_id: Option<u64>,
    pub text: Option<String>,
    pub entities: Vec<Entity>,
    pub attached_document: Option<Document>,
}

/// What an update carries.
#[derive(Clone, Debug, PartialEq, Eq)]
pub enum UpdateContent {
    TextMessage(Message),
    Other,
}

/// One delivered event. The platform hands updates out in the order of `id`.
#[derive(Clone, Debug, PartialEq, Eq)]
pub struct Update {
    pub id: u32,
    pub content: UpdateContent,
}

/// Mathematical model of a [`Document`].
pub struct DocumentView {
    pub file_id: Seq<char>,
    pub file_name: Option<Seq<char>>,
}

/// Mathematical model of a [`Message`].
pub struct MessageView {
    pub id: i32,
    pub chat_id: i64,
    pub sender_id: Option<u64>,
    pub text: Option<Seq<char>>,
    pub entities: Seq<Entity>,
    pub attached_document: Option<DocumentView>,
}

/// Mathematical model of an [`UpdateContent`].
pub enum UpdateContentView {
    TextMessage(MessageView),
    Other,
}

/// Mathematical model of an [`Update`].
pub struct UpdateView {
    pub id: u32,
    pub content: UpdateContentView,
}

impl View for Document {
    type V = DocumentView;

    open spec fn view(&self) -> DocumentView {
        DocumentView {
            file_id: self.file_id@,
            file_name: match self.file_name {
                Some(name) => Some(name@),
                None => None,
            },
        }
    }
}

impl View for Message {
    type V = MessageView;

    open spec fn view(&self) -> MessageView {
        MessageView {
            id: self.id,
            chat_id: self.chat_id,
            sender_id: self.sender_id,
            text: match self.text {
                Some(text) => Some(text@),
                None => None,
            },
            entities: self.entities@,
            attached_document: match self.attached_document {
                Some(document) => Some(document@),
                None => None,
            },
        }
    }
}

impl View for UpdateContent {
    type V = UpdateContentView;

    open spec fn view(&self) -> UpdateContentView {
        match *self {
            UpdateContent::TextMessage(message) => UpdateContentView::TextMessage(message@),
            UpdateContent::Other => UpdateContentView::Other,
        }
    }
}

impl View for Update {
    type V = UpdateView;

    open spec fn view(&self) -> UpdateView {
        UpdateView { id: self.id, content: self.content@ }
    }
}

/// The models of a batch of updates, in order.
pub open spec fn update_views(updates: Seq<Update>) -> Seq<UpdateView> {
    updates.map_values(|u: Update| u@)
}

/// The models of a list of messages, in order.
pub open spec fn message_views(messages: Seq<Message>) -> Seq<MessageView> {
    messages.map_values(|m: Message| m@)
}

} // verus!
