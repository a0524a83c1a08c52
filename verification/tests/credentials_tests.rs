use clip_relay::credentials::{build_download_url, CredentialRefresh, RefreshEvent, RefreshState};
use clip_relay::effect::Effect;

fn refresh() -> CredentialRefresh {
    CredentialRefresh { file_id: "file-42".to_string(), chat_id: 9 }
}

fn run(events: Vec<RefreshEvent>) -> (RefreshState, Vec<Effect>) {
    let refresh = refresh();
    let mut state = RefreshState::Requested;
    let mut trace = Vec::new();
    for event in events {
        let (next, effects) = refresh.process_update_cookies("TOKEN", state, &event);
        state = next;
        trace.extend(effects);
    }
    (state, trace)
}

fn located() -> RefreshEvent {
    RefreshEvent::Located { file_path: Some("documents/file_1.txt".to_string()) }
}

fn fetched() -> RefreshEvent {
    RefreshEvent::Fetched { body: Some("# Netscape HTTP Cookie File\n".to_string()) }
}

#[test]
fn download_url_names_token_and_path() {
    assert_eq!(
        build_download_url("123:ABC", "documents/file_1.txt"),
        "https://api.telegram.org/file/bot123:ABC/documents/file_1.txt"
    );
    assert_eq!(build_download_url("", ""), "https://api.telegram.org/file/bot/");
}

#[test]
fn refresh_locates_fetches_writes_and_confirms() {
    let events = vec![RefreshEvent::Start, located(), fetched(), RefreshEvent::Written { ok: true }];
    let (state, trace) = run(events);
    assert_eq!(state, RefreshState::Done);
    assert_eq!(
        trace,
        vec![
            Effect::GetFile { file_id: "file-42".to_string() },
            Effect::FetchUrl {
                url: "https://api.telegram.org/file/botTOKEN/documents/file_1.txt".to_string()
            },
            Effect::WriteFile {
                path: "cookies.txt".to_string(),
                content: "# Netscape HTTP Cookie File\n".to_string()
            },
            Effect::SendMessage { chat_id: 9, text: "Cookies updated".to_string() },
        ]
    );
}

#[test]
fn refresh_stops_where_the_document_is_not_located() {
    let (state, trace) = run(vec![RefreshEvent::Start, RefreshEvent::Located { file_path: None }]);
    assert_eq!(state, RefreshState::Failed);
    assert_eq!(trace, vec![Effect::GetFile { file_id: "file-42".to_string() }]);
}

#[test]
fn refresh_stops_where_the_document_is_not_fetched() {
    let events = vec![RefreshEvent::Start, located(), RefreshEvent::Fetched { body: None }];
    let (state, trace) = run(events);
    assert_eq!(state, RefreshState::Failed);
    assert_eq!(trace.len(), 2);
    assert!(!trace.iter().any(|e| matches!(e, Effect::WriteFile { .. })));
}

#[test]
fn refresh_does_not_confirm_a_failed_write() {
    let events = vec![RefreshEvent::Start, located(), fetched(), RefreshEvent::Written { ok: false }];
    let (state, trace) = run(events);
    assert_eq!(state, RefreshState::Failed);
    assert!(!trace.iter().any(|e| matches!(e, Effect::SendMessage { .. })));
}

#[test]
fn refresh_ignores_events_out_of_turn() {
    let refresh = refresh();
    let states = [
        RefreshState::Requested,
        RefreshState::Locating,
        RefreshState::Fetching,
        RefreshState::Writing,
        RefreshState::Done,
        RefreshState::Failed,
    ];
    let events = [RefreshEvent::Start, located(), fetched(), RefreshEvent::Written { ok: true }];
    for (s, state) in states.iter().enumerate() {
        for (e, event) in events.iter().enumerate() {
            let (next, effects) = refresh.process_update_cookies("TOKEN", *state, event);
            if s != e {
                assert_eq!(next, *state);
                assert_eq!(effects, Vec::new());
            } else {
                assert_eq!(effects.len(), 1);
            }
        }
    }
}

#[test]
fn finished_refresh_stays_finished() {
    let events = vec![
        RefreshEvent::Start,
        located(),
        fetched(),
        RefreshEvent::Written { ok: true },
        fetched(),
        RefreshEvent::Written { ok: true },
        RefreshEvent::Start,
    ];
    let (state, trace) = run(events);
    assert_eq!(state, RefreshState::Done);
    assert_eq!(trace.iter().filter(|e| matches!(e, Effect::WriteFile { .. })).count(), 1);
}
