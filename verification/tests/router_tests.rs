use clip_relay::effect::Effect;
use clip_relay::message::{Document, Entity, EntityKind, Message};
use clip_relay::router::{classify, plan_dispatch, process_message, Dispatch, Route, AUTHOR_ID};

const SHORT_LINK: &str = "https://vm.tiktok.com/ZM6e3Yxy6";

fn text_message(text: &str) -> Message {
    Message {
        id: 77,
        chat_id: -1001,
        sender_id: Some(5),
        text: Some(text.to_string()),
        entities: Vec::new(),
        attached_document: None,
    }
}

fn link_message(text: &str, link: &str) -> Message {
    let at = text.find(link).unwrap();
    let entity = Entity {
        kind: EntityKind::Url,
        offset: text[..at].encode_utf16().count() as u32,
        length: link.encode_utf16().count() as u32,
    };
    Message { entities: vec![entity], ..text_message(text) }
}

fn upload() -> Message {
    Message {
        id: 9,
        chat_id: AUTHOR_ID as i64,
        sender_id: Some(AUTHOR_ID),
        text: Some("new cookies".to_string()),
        entities: Vec::new(),
        attached_document: Some(Document {
            file_id: "file-42".to_string(),
            file_name: Some("cookies.txt".to_string()),
        }),
    }
}

fn refresh() -> Dispatch {
    Dispatch::RefreshCredential { file_id: "file-42".to_string(), chat_id: AUTHOR_ID as i64 }
}

#[test]
fn authorized_upload_refreshes_the_credential() {
    assert_eq!(classify(&upload(), AUTHOR_ID), Route::CredentialUpload);
    assert_eq!(process_message(&upload(), AUTHOR_ID), refresh());
}

#[test]
fn configured_sender_is_the_one_that_counts() {
    let message = Message { chat_id: 12, sender_id: Some(12), ..upload() };
    assert_eq!(
        process_message(&message, 12),
        Dispatch::RefreshCredential { file_id: "file-42".to_string(), chat_id: 12 }
    );
    assert_eq!(process_message(&message, AUTHOR_ID), Dispatch::Nothing);
    assert_eq!(process_message(&upload(), 12), Dispatch::Nothing);
}

#[test]
fn upload_from_another_sender_is_not_accepted() {
    let message = Message { sender_id: Some(AUTHOR_ID + 1), ..upload() };
    assert_eq!(process_message(&message, AUTHOR_ID), Dispatch::Nothing);
    let message = Message { sender_id: None, ..upload() };
    assert_eq!(process_message(&message, AUTHOR_ID), Dispatch::Nothing);
}

#[test]
fn upload_outside_the_private_chat_is_not_accepted() {
    let message = Message { chat_id: -100123, ..upload() };
    assert_eq!(process_message(&message, AUTHOR_ID), Dispatch::Nothing);
    let message = Message { chat_id: AUTHOR_ID as i64 + 1, ..upload() };
    assert_eq!(process_message(&message, AUTHOR_ID), Dispatch::Nothing);
}

#[test]
fn upload_under_another_name_is_not_accepted() {
    for name in ["cookies.txt ", "Cookies.txt", "cookies", "my cookies.txt", ""] {
        let document = Document {
            file_id: "file-42".to_string(),
            file_name: Some(name.to_string()),
        };
        let message = Message { attached_document: Some(document), ..upload() };
        assert_eq!(process_message(&message, AUTHOR_ID), Dispatch::Nothing);
    }
    let document = Document { file_id: "file-42".to_string(), file_name: None };
    let message = Message { attached_document: Some(document), ..upload() };
    assert_eq!(process_message(&message, AUTHOR_ID), Dispatch::Nothing);
}

#[test]
fn message_without_document_is_no_upload() {
    let message = Message { attached_document: None, ..upload() };
    assert_eq!(process_message(&message, AUTHOR_ID), Dispatch::Nothing);
}

#[test]
fn message_without_text_asks_for_nothing() {
    let message = Message { text: None, ..upload() };
    assert_eq!(classify(&message, AUTHOR_ID), Route::Ignored);
    assert_eq!(process_message(&message, AUTHOR_ID), Dispatch::Nothing);
    let message = Message { text: None, ..link_message(SHORT_LINK, SHORT_LINK) };
    assert_eq!(process_message(&message, AUTHOR_ID), Dispatch::Nothing);
}

#[test]
fn upload_wins_over_alert_and_link() {
    let text = format!("/air {}", SHORT_LINK);
    let message = Message {
        text: Some(text.clone()),
        entities: link_message(&text, SHORT_LINK).entities,
        ..upload()
    };
    assert_eq!(process_message(&message, AUTHOR_ID), refresh());
}

#[test]
fn alert_command_is_answered_with_the_map() {
    let expected = Dispatch::Alert {
        effect: Effect::SendPhoto {
            chat_id: -1001,
            photo: "https://alerts.com.ua/map.png".to_string(),
        },
    };
    assert_eq!(classify(&text_message("/air"), AUTHOR_ID), Route::AlertCommand);
    assert_eq!(process_message(&text_message("/air"), AUTHOR_ID), expected);
    assert_eq!(process_message(&text_message("what is in the /air today"), AUTHOR_ID), expected);
}

#[test]
fn alert_wins_over_link() {
    let text = format!("/air {}", SHORT_LINK);
    let message = link_message(&text, SHORT_LINK);
    assert!(matches!(process_message(&message, AUTHOR_ID), Dispatch::Alert { .. }));
}

#[test]
fn supported_link_starts_a_download() {
    let text = format!("look {}", SHORT_LINK);
    let message = link_message(&text, SHORT_LINK);
    assert_eq!(classify(&message, AUTHOR_ID), Route::LinkBearing);
    assert_eq!(
        process_message(&message, AUTHOR_ID),
        Dispatch::Download { url: SHORT_LINK.to_string(), chat_id: -1001, message_id: 77 }
    );
}

#[test]
fn unsupported_link_is_not_actionable() {
    let message = link_message("see https://example.com/a", "https://example.com/a");
    assert_eq!(classify(&message, AUTHOR_ID), Route::LinkBearing);
    assert_eq!(process_message(&message, AUTHOR_ID), Dispatch::NoActionableUrl);
}

#[test]
fn entity_of_another_kind_is_not_actionable() {
    let mut message = link_message(SHORT_LINK, SHORT_LINK);
    message.entities[0].kind = EntityKind::Other;
    assert_eq!(process_message(&message, AUTHOR_ID), Dispatch::NoActionableUrl);
}

#[test]
fn plain_text_asks_for_nothing() {
    assert_eq!(classify(&text_message("hello"), AUTHOR_ID), Route::Ignored);
    assert_eq!(process_message(&text_message("hello"), AUTHOR_ID), Dispatch::Nothing);
    // A link that no entity marks is not looked for.
    assert_eq!(process_message(&text_message(SHORT_LINK), AUTHOR_ID), Dispatch::Nothing);
}

#[test]
fn plan_dispatch_follows_route_and_link() {
    let message = text_message("hello");
    assert_eq!(
        plan_dispatch(&message, Route::LinkBearing, Some("u".to_string())),
        Dispatch::Download { url: "u".to_string(), chat_id: -1001, message_id: 77 }
    );
    assert_eq!(plan_dispatch(&message, Route::LinkBearing, None), Dispatch::NoActionableUrl);
    assert_eq!(plan_dispatch(&message, Route::Ignored, Some("u".to_string())), Dispatch::Nothing);
    assert!(matches!(
        plan_dispatch(&message, Route::AlertCommand, Some("u".to_string())),
        Dispatch::Alert { .. }
    ));
    assert_eq!(plan_dispatch(&upload(), Route::CredentialUpload, None), refresh());
    assert_eq!(plan_dispatch(&message, Route::CredentialUpload, None), Dispatch::Nothing);
}
