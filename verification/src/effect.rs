//! Outward operations. The library decides which operations happen and in
//! what order; the program around it carries them out against the chat
//! platform, the downloader and the file system.

use vstd::prelude::*;

verus! {

/// Feedback that is attached to the requester's message as an emoji.
#[derive(Clone, Copy, Debug, PartialEq, Eq, Structural)]
pub enum Reaction {
    Positive,
    Negative,
}

/// One operation for the surrounding program to carry out.
#[derive(Clone, Debug, PartialEq, Eq)]
pub enum Effect {
    /// Show the "producing media" activity indicator in a chat.
    SendChatAction { chat_id: i64 },
    /// Send a text message to a chat.
    SendMessage { chat_id: i64, text: String },
    /// Send the photo behind a reference to a chat.
    SendPhoto { chat_id: i64, photo: String },
    /// Send a local file as a video, as a reply to a message.
    SendVideo { chat_id: i64, path: String, reply_to: i32 },
    /// Attach an emoji reaction to a message.
    SetReaction { chat_id: i64, message_id: i32, reaction: Reaction, is_big: bool },
    /// Ask the platform where the content of an uploaded file can be fetched.
    GetFile { file_id: String },
    /// Fetch the body behind a URL.
    FetchUrl { url: String },
    /// Replace the content of a file.
    WriteFile { path: String, content: String },
    /// Run the downloader with these arguments and wait for it.
    RunDownloader { args: Vec<String> },
    /// Delete a file.
    RemoveFile { path: String },
    /// Wait before the task completes.
    Sleep { seconds: u64 },
    /// Write a line to the process log.
    Log { line: String },
}

/// Mathematical model of an [`Effect`].
pub enum EffectView {
    SendChatAction { chat_id: i64 },
    SendMessage { chat_id: i64, text: Seq<char> },
    SendPhoto { chat_id: i64, photo: Seq<char> },
    SendVideo { chat_id: i64, path: Seq<char>, reply_to: i32 },
    SetReaction { chat_id: i64, message_id: i32, reaction: Reaction, is_big: bool },
    GetFile { file_id: Seq<char> },
    FetchUrl { url: Seq<char> },
    WriteFile { path: Seq<char>, content: Seq<char> },
    RunDownloader { args: Seq<Seq<char>> },
    RemoveFile { path: Seq<char> },
    Sleep { seconds: u64 },
    Log { line: Seq<char> },
}

impl View for Effect {
    type V = EffectView;

    open spec fn view(&self) -> EffectView {
        match *self {
            Effect::SendChatAction { chat_id } => EffectView::SendChatAction { chat_id },
            Effect::SendMessage { chat_id, text } => EffectView::SendMessage {
                chat_id,
                text: text@,
            },
            Effect::SendPhoto { chat_id, photo } => EffectView::SendPhoto {
                chat_id,
                photo: photo@,
            },
            Effect::SendVideo { chat_id, path, reply_to } => EffectView::SendVideo {
                chat_id,
                path: path@,
                reply_to,
            },
            Effect::SetReaction { chat_id, message_id, reaction, is_big } => {
                EffectView::SetReaction { chat_id, message_id, reaction, is_big }
            },
            Effect::GetFile { file_id } => EffectView::GetFile { file_id: file_id@ },
            Effect::FetchUrl { url } => EffectView::FetchUrl { url: url@ },
            Effect::WriteFile { path, content } => EffectView::WriteFile {
                path: path@,
                content: content@,
            },
            Effect::RunDownloader { args } => EffectView::RunDownloader {
                args: args@.map_values(|a: String| a@),
            },
            Effect::RemoveFile { path } => EffectView::RemoveFile { path: path@ },
            Effect::Sleep { seconds } => EffectView::Sleep { seconds },
            Effect::Log { line } => EffectView::Log { line: line@ },
        }
    }
}

/// The models of a list of effects, in order.
pub open spec fn effect_views(effects: Seq<Effect>) -> Seq<EffectView> {
    effects.map_values(|e: Effect| e@)
}

/// The emoji that the platform shows for a reaction.
pub open spec fn emoji_of(reaction: Reaction) -> Seq<char> {
    match reaction {
        Reaction::Positive => seq!['\u{1F44D}'],
        Reaction::Negative => seq!['\u{1F44E}'],
    }
}

/// Text of the message that asks for a credential refresh.
pub open spec fn nudge_text() -> Seq<char> {
    "Update cookies"@
}

/// Reference of the image that answers the alert command.
pub open spec fn alert_photo_ref() -> Seq<char> {
    "https://alerts.com.ua/map.png"@
}

/// The reaction to `message_id` in `chat_id`, shown big.
pub open spec fn reaction_to(chat_id: i64, message_id: i32, reaction: Reaction) -> EffectView {
    EffectView::SetReaction { chat_id, message_id, reaction, is_big: true }
}

impl Reaction {
    /// The emoji to hand to the platform.
    pub fn emoji(&self) -> (out: &'static str)
        ensures
            out@ == emoji_of(*self),
    {
        proof {
            reveal_strlit("\u{1F44D}");
            reveal_strlit("\u{1F44E}");
        }
        match self {
            Reaction::Positive => {
                let s = "\u{1F44D}";
                assert(s@ =~= emoji_of(Reaction::Positive));
                s
            },
            Reaction::Negative => {
                let s = "\u{1F44E}";
                assert(s@ =~= emoji_of(Reaction::Negative));
                s
            },
        }
    }
}

/// Builds the reaction to a message. Reactions are always shown big.
pub fn send_react(chat_id: i64, message_id: i32, reaction: Reaction) -> (effect: Effect)
    ensures
        effect@ == reaction_to(chat_id, message_id, reaction),
{
    Effect::SetReaction { chat_id, message_id, reaction, is_big: true }
}

/// Builds the message that asks the chat for a credential refresh.
pub fn send_author_info(chat_id: i64) -> (effect: Effect)
    ensures
        effect@ == (EffectView::SendMessage { chat_id, text: nudge_text() }),
{
    Effect::SendMessage { chat_id, text: "Update cookies".to_owned() }
}

/// Builds the answer to the alert command: a fixed informational image.
pub fn process_air_alert(chat_id: i64) -> (effect: Effect)
    ensures
        effect@ == (EffectView::SendPhoto { chat_id, photo: alert_photo_ref() }),
{
    Effect::SendPhoto { chat_id, photo: "https://alerts.com.ua/map.png".to_owned() }
}

} // verus!
