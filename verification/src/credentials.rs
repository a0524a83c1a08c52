//! The credential store: replaces the shared credential file by the content
//! of an uploaded document.
//!
//! A refresh asks the platform where the document lies, fetches it, writes
//! the credential file and confirms in the chat. Whatever fails ends the
//! refresh; the credential file is written at one step only.

use vstd::prelude::*;
use crate::effect::{effect_views, Effect, EffectView};
use crate::job::credential_path;

verus! {

/// Text of the message that confirms a refresh.
pub open spec fn confirmation_text() -> Seq<char> {
    "Cookies updated"@
}

/// Where the platform serves the files of the bot with the token `token`.
pub open spec fn file_url_base() -> Seq<char> {
    "https://api.telegram.org/file/bot"@
}

/// The URL behind which the platform serves `file_path` to the bot with the
/// token `token`.
pub open spec fn download_url(token: Seq<char>, file_path: Seq<char>) -> Seq<char> {
    file_url_base() + token + "/"@ + file_path
}

/// Where a refresh stands.
#[derive(Clone, Copy, Debug, PartialEq, Eq, Structural)]
pub enum RefreshState {
    /// Accepted, nothing asked yet.
    Requested,
    /// The platform was asked where the document lies.
    Locating,
    /// The document is being fetched.
    Fetching,
    /// The credential file is being written.
    Writing,
    /// The credential file is replaced and the chat was told.
    Done,
    /// A step failed. The confirmation is not sent.
    Failed,
}

/// What came back from the operation of the last step.
#[derive(Clone, Debug, PartialEq, Eq)]
pub enum RefreshEvent {
    /// The refresh was handed to its task.
    Start,
    /// The platform answered where the document lies: its path, or `None`
    /// where the request failed or the answer names no path.
    Located { file_path: Option<String> },
    /// The document was fetched: its content, or `None` where that failed.
    Fetched { body: Option<String> },
    /// The credential file was written, or could not be.
    Written { ok: bool },
}

/// Mathematical model of a [`RefreshEvent`].
pub enum RefreshEventView {
    Start,
    Located { file_path: Option<Seq<char>> },
    Fetched { body: Option<Seq<char>> },
    Written { ok: bool },
}

impl View for RefreshEvent {
    type V = RefreshEventView;

    open spec fn view(&self) -> RefreshEventView {
        match *self {
            RefreshEvent::Start => RefreshEventView::Start,
            RefreshEvent::Located { file_path } => RefreshEventView::Located {
                file_path: match file_path {
                    Some(path) => Some(path@),
                    None => None,
                },
            },
            RefreshEvent::Fetched { body } => RefreshEventView::Fetched {
                body: match body {
                    Some(content) => Some(content@),
                    None => None,
                },
            },
            RefreshEvent::Written { ok } => RefreshEventView::Written { ok },
        }
    }
}

/// One accepted credential upload.
#[derive(Clone, Debug, PartialEq, Eq)]
pub struct CredentialRefresh {
    /// The platform's id of the uploaded document.
    pub file_id: String,
    /// The chat to confirm in.
    pub chat_id: i64,
}

/// Mathematical model of a [`CredentialRefresh`].
pub struct RefreshView {
    pub file_id: Seq<char>,
    pub chat_id: i64,
}

impl View for CredentialRefresh {
    type V = RefreshView;

    open spec fn view(&self) -> RefreshView {
        RefreshView { file_id: self.file_id@, chat_id: self.chat_id }
    }
}

/// One step of a refresh: the next state and the operations to carry out.
/// An event that the state does not wait for changes nothing.
pub open spec fn refresh_step(
    refresh: RefreshView,
    token: Seq<char>,
    state: RefreshState,
    event: RefreshEventView,
) -> (RefreshState, Seq<EffectView>) {
    match (state, event) {
        (RefreshState::Requested, RefreshEventView::Start) => (
            RefreshState::Locating,
            seq![EffectView::GetFile { file_id: refresh.file_id }],
        ),
        (RefreshState::Locating, RefreshEventView::Located { file_path: Some(path) }) => (
            RefreshState::Fetching,
            seq![EffectView::FetchUrl { url: download_url(token, path) }],
        ),
        (RefreshState::Locating, RefreshEventView::Located { file_path: None }) => (
            RefreshState::Failed,
            Seq::empty(),
        ),
        (RefreshState::Fetching, RefreshEventView::Fetched { body: Some(content) }) => (
            RefreshState::Writing,
            seq![EffectView::WriteFile { path: credential_path(), content }],
        ),
        (RefreshState::Fetching, RefreshEventView::Fetched { body: None }) => (
            RefreshState::Failed,
            Seq::empty(),
        ),
        (RefreshState::Writing, RefreshEventView::Written { ok }) => if ok {
            (
                RefreshState::Done,
                seq![
                    EffectView::SendMessage {
                        chat_id: refresh.chat_id,
                        text: confirmation_text(),
                    },
                ],
            )
        } else {
            (RefreshState::Failed, Seq::empty())
        },
        _ => (state, Seq::empty()),
    }
}

/// A step asks for a write only when the document's content has just come
/// back, and then writes that content to the credential file, whole.
pub proof fn lemma_write_follows_fetch(
    refresh: RefreshView,
    token: Seq<char>,
    state: RefreshState,
    event: RefreshEventView,
    i: int,
)
    requires
        0 <= i < refresh_step(refresh, token, state, event).1.len(),
        refresh_step(refresh, token, state, event).1[i] is WriteFile,
    ensures
        state == RefreshState::Fetching,
        event is Fetched,
        event->body is Some,
        refresh_step(refresh, token, state, event).1[i] == (EffectView::WriteFile {
            path: credential_path(),
            content: event->body->0,
        }),
{
}

/// The chat is told of a refresh only after the credential file was written.
pub proof fn lemma_confirmation_follows_write(
    refresh: RefreshView,
    token: Seq<char>,
    state: RefreshState,
    event: RefreshEventView,
    i: int,
)
    requires
        0 <= i < refresh_step(refresh, token, state, event).1.len(),
        refresh_step(refresh, token, state, event).1[i] is SendMessage,
    ensures
        state == RefreshState::Writing,
        event == (RefreshEventView::Written { ok: true }),
        refresh_step(refresh, token, state, event).0 == RefreshState::Done,
{
}

/// Builds the URL behind which the platform serves `file_path` to the bot
/// with the token `token`.
pub fn build_download_url(token: &str, file_path: &str) -> (url: String)
    ensures
        url@ == download_url(token@, file_path@),
{
    "https://api.telegram.org/file/bot".to_owned().concat(token).concat("/").concat(file_path)
}

impl CredentialRefresh {
    /// Takes one step of the refresh: gives the state after `event` and the
    /// operations to carry out, in order.
    pub fn process_update_cookies(&self, token: &str, state: RefreshState, event: &RefreshEvent)
        -> (next: (RefreshState, Vec<Effect>))
        ensures
            (next.0, effect_views(next.1@)) == refresh_step(self@, token@, state, event@),
    {
        let mut effects: Vec<Effect> = Vec::new();
        let mut after = state;
        match state {
            RefreshState::Requested => {
                if let RefreshEvent::Start = event {
                    effects.push(Effect::GetFile { file_id: self.file_id.clone() });
                    after = RefreshState::Locating;
                }
            },
            RefreshState::Locating => {
                if let RefreshEvent::Located { file_path } = event {
                    match file_path {
                        Some(path) => {
                            effects.push(
                                Effect::FetchUrl { url: build_download_url(token, path.as_str()) },
                            );
                            after = RefreshState::Fetching;
                        },
                        None => {
                            after = RefreshState::Failed;
                        },
                    }
                }
            },
            RefreshState::Fetching => {
                if let RefreshEvent::Fetched { body } = event {
                    match body {
                        Some(content) => {
                            effects.push(
                                Effect::WriteFile {
                                    path: "cookies.txt".to_owned(),
                                    content: content.clone(),
                                },
                            );
                            after = RefreshState::Writing;
                        },
                        None => {
                            after = RefreshState::Failed;
                        },
                    }
                }
            },
            RefreshState::Writing => {
                if let RefreshEvent::Written { ok } = event {
                    if *ok {
                        effects.push(
                            Effect::SendMessage {
                                chat_id: self.chat_id,
                                text: "Cookies updated".to_owned(),
                            },
                        );
                        after = RefreshState::Done;
                    } else {
                        after = RefreshState::Failed;
                    }
                }
            },
            RefreshState::Done => {},
            RefreshState::Failed => {},
        }
        assert(effect_views(effects@) =~= refresh_step(self@, token@, state, event@).1);
        (after, effects)
    }
}

} // verus!
