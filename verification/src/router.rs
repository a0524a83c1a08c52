//! The message router: decides what an incoming message asks for.
//!
//! The rules are tried in order and the first that holds wins: a credential
//! upload, the alert command, a link-bearing message. A message without text
//! asks for nothing, whatever else it carries.

use vstd::prelude::*;
use crate::effect::{alert_photo_ref, process_air_alert, Effect, EffectView};
use crate::links::{find_supported_link, select_link};
use crate::message::{Message, MessageView};
use crate::text::{contains_text, has_substring};

verus! {

/// Id of the one sender whose credential uploads are accepted, unless the
/// caller configures another.
pub const AUTHOR_ID: u64 = 241629528;

/// File name that a credential upload must carry.
pub open spec fn credential_file_name() -> Seq<char> {
    "cookies.txt"@
}

/// Text that marks the alert command.
pub open spec fn alert_trigger() -> Seq<char> {
    "/air"@
}

/// What a message is, by the rules of the router.
#[derive(Clone, Copy, Debug, PartialEq, Eq, Structural)]
pub enum Route {
    CredentialUpload,
    AlertCommand,
    LinkBearing,
    Ignored,
}

/// What the surrounding program is to do with a message.
#[derive(Clone, Debug, PartialEq, Eq)]
pub enum Dispatch {
    /// Replace the credential file by the content of the uploaded document
    /// and confirm in `chat_id`.
    RefreshCredential { file_id: String, chat_id: i64 },
    /// Answer the alert command with this operation.
    Alert { effect: Effect },
    /// Start a download job for `url`, asked for by message `message_id` in
    /// chat `chat_id`.
    Download { url: String, chat_id: i64, message_id: i32 },
    /// The message carries entities, but none marks a supported link.
    NoActionableUrl,
    /// Nothing to do.
    Nothing,
}

/// Mathematical model of a [`Dispatch`].
pub enum DispatchView {
    RefreshCredential { file_id: Seq<char>, chat_id: i64 },
    Alert { effect: EffectView },
    Download { url: Seq<char>, chat_id: i64, message_id: i32 },
    NoActionableUrl,
    Nothing,
}

impl View for Dispatch {
    type V = DispatchView;

    open spec fn view(&self) -> DispatchView {
        match *self {
            Dispatch::RefreshCredential { file_id, chat_id } => DispatchView::RefreshCredential {
                file_id: file_id@,
                chat_id,
            },
            Dispatch::Alert { effect } => DispatchView::Alert { effect: effect@ },
            Dispatch::Download { url, chat_id, message_id } => DispatchView::Download {
                url: url@,
                chat_id,
                message_id,
            },
            Dispatch::NoActionableUrl => DispatchView::NoActionableUrl,
            Dispatch::Nothing => DispatchView::Nothing,
        }
    }
}

/// The message carries a document named like the credential file, comes
/// from the authorized sender, and was sent in that sender's own private
/// chat, whose id is the sender's id.
pub open spec fn is_credential_upload(message: MessageView, authorized: u64) -> bool {
    &&& message.attached_document matches Some(document) && document.file_name == Some(
        credential_file_name(),
    )
    &&& message.sender_id == Some(authorized)
    &&& message.chat_id as int == authorized as int
}

/// What a message is: nothing without text; else the first of credential
/// upload, alert command and link-bearing message whose condition holds.
pub open spec fn route_of(message: MessageView, authorized: u64) -> Route {
    match message.text {
        None => Route::Ignored,
        Some(text) => if is_credential_upload(message, authorized) {
            Route::CredentialUpload
        } else if contains_text(text, alert_trigger()) {
            Route::AlertCommand
        } else if message.entities.len() > 0 {
            Route::LinkBearing
        } else {
            Route::Ignored
        },
    }
}

/// What is to be done with a message whose route is known, where `link` is
/// what the link extractor found in it.
pub open spec fn dispatch_for(message: MessageView, route: Route, link: Option<Seq<char>>)
    -> DispatchView {
    match route {
        Route::CredentialUpload => DispatchView::RefreshCredential {
            file_id: message.attached_document->0.file_id,
            chat_id: message.chat_id,
        },
        Route::AlertCommand => DispatchView::Alert {
            effect: EffectView::SendPhoto { chat_id: message.chat_id, photo: alert_photo_ref() },
        },
        Route::LinkBearing => match link {
            Some(url) => DispatchView::Download {
                url,
                chat_id: message.chat_id,
                message_id: message.id,
            },
            None => DispatchView::NoActionableUrl,
        },
        Route::Ignored => DispatchView::Nothing,
    }
}

/// What is to be done with a message.
pub open spec fn dispatch_of(message: MessageView, authorized: u64) -> DispatchView {
    dispatch_for(
        message,
        route_of(message, authorized),
        match message.text {
            Some(text) => select_link(text, message.entities),
            None => None,
        },
    )
}

/// A message refreshes the credential only if it has text, comes from the
/// authorized sender in that sender's private chat, and carries a document
/// named like the credential file; and every such message does. One
/// mismatch is enough for the credential to stay as it is.
pub proof fn lemma_credential_needs_every_condition(message: MessageView, authorized: u64)
    ensures
        dispatch_of(message, authorized) is RefreshCredential <==> {
            &&& message.text is Some
            &&& message.sender_id == Some(authorized)
            &&& message.chat_id as int == authorized as int
            &&& message.attached_document is Some
            &&& message.attached_document->0.file_name == Some(credential_file_name())
        },
        dispatch_of(message, authorized) is RefreshCredential ==> dispatch_of(message, authorized)
            == (DispatchView::RefreshCredential {
            file_id: message.attached_document->0.file_id,
            chat_id: message.chat_id,
        }),
{
}

/// A qualifying credential upload wins over the alert command and over any
/// link that the message may carry.
pub proof fn lemma_credential_upload_wins(message: MessageView, authorized: u64)
    requires
        message.text is Some,
        is_credential_upload(message, authorized),
    ensures
        route_of(message, authorized) == Route::CredentialUpload,
        !(dispatch_of(message, authorized) is Download),
        !(dispatch_of(message, authorized) is Alert),
{
}

/// Tells whether a message is a credential upload.
fn check_credential_upload(message: &Message, authorized_id: u64) -> (accepted: bool)
    ensures
        accepted == is_credential_upload(message@, authorized_id),
{
    let named = match &message.attached_document {
        Some(document) => match &document.file_name {
            Some(name) => {
                let wanted = "cookies.txt".to_owned();
                *name == wanted
            },
            None => false,
        },
        None => false,
    };
    let from_authorized = match message.sender_id {
        Some(sender) => sender == authorized_id,
        None => false,
    };
    let private = message.chat_id >= 0 && message.chat_id as u64 == authorized_id;
    named && from_authorized && private
}

/// Tells what a message is.
pub fn classify(message: &Message, authorized_id: u64) -> (route: Route)
    ensures
        route == route_of(message@, authorized_id),
{
    match &message.text {
        None => Route::Ignored,
        Some(text) => {
            if check_credential_upload(message, authorized_id) {
                Route::CredentialUpload
            } else if has_substring(text.as_str(), "/air") {
                Route::AlertCommand
            } else if message.entities.len() > 0 {
                Route::LinkBearing
            } else {
                Route::Ignored
            }
        },
    }
}

/// Tells what is to be done with a message of a known route, given what the
/// link extractor found in it. A credential upload without a document asks
/// for nothing.
pub fn plan_dispatch(message: &Message, route: Route, link: Option<String>) -> (dispatch: Dispatch)
    ensures
        route == Route::CredentialUpload && message@.attached_document is None ==> dispatch@
            == DispatchView::Nothing,
        !(route == Route::CredentialUpload && message@.attached_document is None) ==> dispatch@
            == dispatch_for(
            message@,
            route,
            match link {
                Some(url) => Some(url@),
                None => None,
            },
        ),
{
    match route {
        Route::CredentialUpload => match &message.attached_document {
            Some(document) => Dispatch::RefreshCredential {
                file_id: document.file_id.clone(),
                chat_id: message.chat_id,
            },
            None => Dispatch::Nothing,
        },
        Route::AlertCommand => Dispatch::Alert { effect: process_air_alert(message.chat_id) },
        Route::LinkBearing => match link {
            Some(url) => Dispatch::Download {
                url,
                chat_id: message.chat_id,
                message_id: message.id,
            },
            None => Dispatch::NoActionableUrl,
        },
        Route::Ignored => Dispatch::Nothing,
    }
}

/// Decides what is to be done with an incoming message.
pub fn process_message(message: &Message, authorized_id: u64) -> (dispatch: Dispatch)
    ensures
        dispatch@ == dispatch_of(message@, authorized_id),
{
    let route = classify(message, authorized_id);
    let link = match (&message.text, route) {
        (Some(text), Route::LinkBearing) => find_supported_link(text.as_str(), &message.entities),
        _ => None,
    };
    plan_dispatch(message, route, link)
}

} // verus!
