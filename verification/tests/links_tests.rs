use clip_relay::links::{extract_urls, find_supported_link, first_match, is_supported, pick_link};
use clip_relay::message::{Entity, EntityKind};

const SHORT_LINK: &str = "https://vm.tiktok.com/ZM6e3Yxy6";
const REEL_LINK: &str = "https://www.instagram.com/reel/C0ZVcxvsuWI/";
const OTHER_LINK: &str = "https://example.com/watch?v=1";

fn url_entity(text: &str, part: &str) -> Entity {
    let at = text.find(part).unwrap();
    Entity {
        kind: EntityKind::Url,
        offset: text[..at].encode_utf16().count() as u32,
        length: part.encode_utf16().count() as u32,
    }
}

#[test]
fn supported_shapes_are_recognised() {
    assert!(is_supported(SHORT_LINK));
    assert!(is_supported(REEL_LINK));
    assert!(is_supported("https://www.instagram.com/reel/C0ZVcxvsuWI"));
}

#[test]
fn other_shapes_are_not_recognised() {
    assert!(!is_supported(OTHER_LINK));
    assert!(!is_supported(""));
    assert!(!is_supported("https://vm.tiktok.com/"));
    assert!(!is_supported("https://www.instagram.com/reel/"));
    assert!(!is_supported("http://vm.tiktok.com/ZM6e3Yxy6"));
    assert!(!is_supported("https://vmxtiktok.com/ZM6e3Yxy6"));
    assert!(!is_supported("https://www.tiktok.com/@someone/video/1"));
}

#[test]
fn supported_shape_is_found_inside_a_longer_text() {
    assert!(is_supported("look: https://vm.tiktok.com/ZM6e3Yxy6 !"));
}

#[test]
fn extract_urls_takes_url_entities_in_order() {
    let text = format!("a {} b {} c", OTHER_LINK, SHORT_LINK);
    let entities = vec![
        url_entity(&text, OTHER_LINK),
        Entity { kind: EntityKind::Other, offset: 0, length: 1 },
        url_entity(&text, SHORT_LINK),
    ];
    assert_eq!(
        extract_urls(&text, &entities),
        vec![OTHER_LINK.to_string(), SHORT_LINK.to_string()]
    );
}

#[test]
fn extract_urls_uses_code_unit_offsets() {
    let text = format!("\u{1F600}\u{1F600} \u{e9} {}", SHORT_LINK);
    let entities = vec![Entity { kind: EntityKind::Url, offset: 7, length: 31 }];
    assert_eq!(extract_urls(&text, &entities), vec![SHORT_LINK.to_string()]);
}

#[test]
fn extract_urls_leaves_out_spans_that_cannot_be_cut() {
    let text = "\u{1F600}abc";
    let entities = vec![
        Entity { kind: EntityKind::Url, offset: 1, length: 2 },
        Entity { kind: EntityKind::Url, offset: 2, length: 30 },
        Entity { kind: EntityKind::Url, offset: 2, length: 3 },
    ];
    assert_eq!(extract_urls(text, &entities), vec!["abc".to_string()]);
}

#[test]
fn extract_urls_of_no_entities_is_empty() {
    assert_eq!(extract_urls("https://vm.tiktok.com/abc", &Vec::new()), Vec::<String>::new());
}

#[test]
fn first_match_is_the_first_true() {
    assert_eq!(first_match(&vec![]), None);
    assert_eq!(first_match(&vec![false, false]), None);
    assert_eq!(first_match(&vec![true]), Some(0));
    assert_eq!(first_match(&vec![false, true, true]), Some(1));
}

#[test]
fn pick_link_takes_the_url_of_the_first_true_verdict() {
    let urls = vec!["a".to_string(), "b".to_string(), "c".to_string()];
    assert_eq!(pick_link(&urls, &vec![false, true, true]), Some("b".to_string()));
    assert_eq!(pick_link(&urls, &vec![true, false, false]), Some("a".to_string()));
    assert_eq!(pick_link(&urls, &vec![false, false, false]), None);
    assert_eq!(pick_link(&urls, &vec![]), None);
    assert_eq!(pick_link(&urls, &vec![false, false, false, true]), None);
}

#[test]
fn only_the_matching_entity_is_dispatched() {
    let text = format!("{} and {}", OTHER_LINK, SHORT_LINK);
    let entities = vec![url_entity(&text, OTHER_LINK), url_entity(&text, SHORT_LINK)];
    assert_eq!(find_supported_link(&text, &entities), Some(SHORT_LINK.to_string()));

    let text = format!("{} and {}", REEL_LINK, OTHER_LINK);
    let entities = vec![url_entity(&text, REEL_LINK), url_entity(&text, OTHER_LINK)];
    assert_eq!(find_supported_link(&text, &entities), Some(REEL_LINK.to_string()));
}

#[test]
fn the_first_of_two_matching_entities_is_dispatched() {
    let text = format!("{} {}", REEL_LINK, SHORT_LINK);
    let entities = vec![url_entity(&text, REEL_LINK), url_entity(&text, SHORT_LINK)];
    assert_eq!(find_supported_link(&text, &entities), Some(REEL_LINK.to_string()));
    let entities = vec![url_entity(&text, SHORT_LINK), url_entity(&text, REEL_LINK)];
    assert_eq!(find_supported_link(&text, &entities), Some(SHORT_LINK.to_string()));
}

#[test]
fn no_matching_entity_dispatches_nothing() {
    let text = format!("{} {}", OTHER_LINK, SHORT_LINK);
    let entities = vec![url_entity(&text, OTHER_LINK)];
    assert_eq!(find_supported_link(&text, &entities), None);
    assert_eq!(find_supported_link(&text, &Vec::new()), None);
    let not_a_url = Entity { kind: EntityKind::Other, ..url_entity(&text, SHORT_LINK) };
    assert_eq!(find_supported_link(&text, &vec![not_a_url]), None);
}

#[test]
fn link_behind_an_emoji_is_found_whole() {
    let text = format!("\u{1F525}\u{1F525}\u{1F525} {}", SHORT_LINK);
    let entities = vec![url_entity(&text, SHORT_LINK)];
    assert_eq!(entities[0].offset, 7);
    assert_eq!(find_supported_link(&text, &entities), Some(SHORT_LINK.to_string()));
}
