//! The link extractor: finds the texts that a message's entities mark as
//! URLs and picks the first one of a supported shape.

use vstd::prelude::*;
use crate::message::{Entity, EntityKind};
use crate::text::{lemma_slice_is_code_unit_range, slice_utf16, utf16_slice, utf16_units};

verus! {

/// The two supported link shapes, as one pattern: a short link of the first
/// hosting service, or a reel link of the second.
pub open spec fn link_pattern() -> Seq<char> {
    r"https://vm\.tiktok\.com/[A-Za-z0-9]+|https://www.instagram.com/reel/[A-Za-z0-9]+"@
}

/// What the pattern engine answers for a pattern and a text: `None` where the
/// pattern does not compile, else whether it matches anywhere in the text.
pub uninterp spec fn pattern_search(pattern: Seq<char>, haystack: Seq<char>) -> Option<bool>;

/// Compiles `pattern` with `regex::Regex::new` and asks `Regex::is_match`
/// whether it matches anywhere in `haystack`. Both depend on their arguments
/// alone, so the answer has a name; what the answer is on given texts is not
/// claimed here.
#[verifier::external_body]
fn search_pattern(pattern: &str, haystack: &str) -> (found: Option<bool>)
    ensures
        found == pattern_search(pattern@, haystack@),
{
    match regex::Regex::new(pattern) {
        Ok(compiled) => Some(compiled.is_match(haystack)),
        Err(_) => None,
    }
}

/// The text that `entity` marks as a URL in `text`. `None` for an entity of
/// another kind, and for a span that cannot be cut from `text`.
pub open spec fn entity_url(text: Seq<char>, entity: Entity) -> Option<Seq<char>> {
    if entity.kind == EntityKind::Url {
        utf16_slice(text, entity.offset as nat, entity.length as nat)
    } else {
        None
    }
}

/// The texts that `entities` mark as URLs in `text`, in entity order.
pub open spec fn url_candidates(text: Seq<char>, entities: Seq<Entity>) -> Seq<Seq<char>>
    decreases entities.len(),
{
    if entities.len() == 0 {
        Seq::empty()
    } else {
        let before = url_candidates(text, entities.drop_last());
        match entity_url(text, entities.last()) {
            Some(url) => before.push(url),
            None => before,
        }
    }
}

/// `url` has one of the supported shapes.
pub open spec fn is_supported_link(url: Seq<char>) -> bool {
    pattern_search(link_pattern(), url) == Some(true)
}

/// `i` is the first place at which `verdicts` holds `true`.
pub open spec fn is_first_true(verdicts: Seq<bool>, i: int) -> bool {
    &&& 0 <= i < verdicts.len()
    &&& verdicts[i]
    &&& forall|j: int| 0 <= j < i ==> !verdicts[j]
}

/// The first place at which `verdicts` holds `true`, if there is one.
pub open spec fn first_true(verdicts: Seq<bool>) -> Option<int> {
    if exists|i: int| is_first_true(verdicts, i) {
        Some(choose|i: int| is_first_true(verdicts, i))
    } else {
        None
    }
}

/// The first of `urls` whose verdict is `true`. A verdict without a URL
/// picks nothing.
pub open spec fn pick(urls: Seq<Seq<char>>, verdicts: Seq<bool>) -> Option<Seq<char>> {
    match first_true(verdicts) {
        Some(i) => if i < urls.len() {
            Some(urls[i])
        } else {
            None
        },
        None => None,
    }
}

/// The link that a message dispatches: the first text, in entity order, that
/// an entity marks as a URL and that has a supported shape.
pub open spec fn select_link(text: Seq<char>, entities: Seq<Entity>) -> Option<Seq<char>> {
    let urls = url_candidates(text, entities);
    pick(urls, urls.map_values(|url: Seq<char>| is_supported_link(url)))
}

/// The views of a list of strings, in order.
pub open spec fn string_views(strings: Seq<String>) -> Seq<Seq<char>> {
    strings.map_values(|s: String| s@)
}

/// For a message with one URL entity whose span can be cut, the one text
/// that is extracted holds exactly the code units `[offset, offset + length)`
/// of the UTF-16 encoding of the message's text.
pub proof fn lemma_one_entity_extracts_its_span(text: Seq<char>, offset: u32, length: u32)
    requires
        utf16_slice(text, offset as nat, length as nat) is Some,
    ensures
        ({
            let entity = Entity { kind: EntityKind::Url, offset, length };
            let urls = url_candidates(text, seq![entity]);
            &&& urls.len() == 1
            &&& utf16_units(urls[0]) == utf16_units(text).subrange(
                offset as int,
                offset as int + length,
            )
        }),
{
    let entity = Entity { kind: EntityKind::Url, offset, length };
    let entities = seq![entity];
    assert(entities.drop_last() =~= Seq::<Entity>::empty());
    assert(entities.last() == entity);
    reveal_with_fuel(url_candidates, 2);
    lemma_slice_is_code_unit_range(text, offset as nat, length as nat);
}

/// At most one place is the first `true`.
pub proof fn lemma_first_true_unique(verdicts: Seq<bool>, i: int, j: int)
    requires
        is_first_true(verdicts, i),
        is_first_true(verdicts, j),
    ensures
        i == j,
{
}

/// Where exactly one of the candidates has a supported shape, that one is
/// dispatched, wherever it stands among the others.
pub proof fn lemma_only_match_is_selected(text: Seq<char>, entities: Seq<Entity>, k: int)
    requires
        0 <= k < url_candidates(text, entities).len(),
        forall|i: int|
            0 <= i < url_candidates(text, entities).len() ==> (is_supported_link(
                #[trigger] url_candidates(text, entities)[i],
            ) <==> i == k),
    ensures
        select_link(text, entities) == Some(url_candidates(text, entities)[k]),
{
    let urls = url_candidates(text, entities);
    let verdicts = urls.map_values(|url: Seq<char>| is_supported_link(url));
    assert forall|j: int| 0 <= j < k implies !verdicts[j] by {
        assert(!is_supported_link(urls[j]));
    }
    assert(is_supported_link(urls[k]));
    assert(is_first_true(verdicts, k));
    lemma_first_true_unique(verdicts, k, first_true(verdicts)->0);
}

/// Whatever a message dispatches is one of its URL candidates and has a
/// supported shape; no candidate before it has one. Where nothing is
/// dispatched, no candidate has a supported shape.
pub proof fn lemma_selected_is_first_supported(text: Seq<char>, entities: Seq<Entity>)
    ensures
        match select_link(text, entities) {
            Some(url) => exists|k: int|
                0 <= k < url_candidates(text, entities).len() && #[trigger] url_candidates(
                    text,
                    entities,
                )[k] == url && is_supported_link(url) && forall|j: int|
                    0 <= j < k ==> !is_supported_link(#[trigger] url_candidates(text, entities)[j]),
            None => forall|j: int|
                0 <= j < url_candidates(text, entities).len() ==> !is_supported_link(
                    #[trigger] url_candidates(text, entities)[j],
                ),
        },
{
    let urls = url_candidates(text, entities);
    let verdicts = urls.map_values(|url: Seq<char>| is_supported_link(url));
    match first_true(verdicts) {
        Some(k) => {
            assert(is_first_true(verdicts, k));
            assert forall|j: int| 0 <= j < k implies !is_supported_link(#[trigger] urls[j]) by {
                assert(!verdicts[j]);
            }
            assert(urls[k] == select_link(text, entities)->0);
        },
        None => {
            assert forall|j: int| 0 <= j < urls.len() implies !is_supported_link(
                #[trigger] urls[j],
            ) by {
                if is_supported_link(urls[j]) {
                    lemma_some_true_has_first(verdicts, j);
                }
            }
        },
    }
}

/// A `true` somewhere means that there is a first one.
pub proof fn lemma_some_true_has_first(verdicts: Seq<bool>, i: int)
    requires
        0 <= i < verdicts.len(),
        verdicts[i],
    ensures
        first_true(verdicts) is Some,
    decreases i,
{
    if exists|j: int| 0 <= j < i && verdicts[j] {
        let j = choose|j: int| 0 <= j < i && verdicts[j];
        lemma_some_true_has_first(verdicts, j);
    } else {
        assert(is_first_true(verdicts, i));
    }
}

/// Cuts out the texts that `entities` mark as URLs in `text`, in entity
/// order. Spans are counted in UTF-16 code units; an entity whose span
/// cannot be cut from `text` marks nothing.
pub fn extract_urls(text: &str, entities: &Vec<Entity>) -> (urls: Vec<String>)
    ensures
        string_views(urls@) == url_candidates(text@, entities@),
{
    let mut urls: Vec<String> = Vec::new();
    let mut i: usize = 0;
    while i < entities.len()
        invariant
            0 <= i <= entities.len(),
            string_views(urls@) == url_candidates(text@, entities@.take(i as int)),
        decreases entities.len() - i,
    {
        let entity = entities[i];
        proof {
            assert(entities@.take(i + 1).drop_last() == entities@.take(i as int));
            assert(entities@.take(i + 1).last() == entity);
        }
        if let EntityKind::Url = entity.kind {
            if let Some(url) = slice_utf16(text, entity.offset, entity.length) {
                let ghost before = urls@;
                urls.push(url);
                assert(string_views(urls@) =~= string_views(before).push(url@));
            }
        }
        i = i + 1;
    }
    assert(entities@.take(entities.len() as int) == entities@);
    urls
}

/// Finds the first place at which `verdicts` holds `true`.
pub fn first_match(verdicts: &Vec<bool>) -> (found: Option<usize>)
    ensures
        match found {
            Some(i) => first_true(verdicts@) == Some(i as int),
            None => first_true(verdicts@) is None,
        },
{
    let mut i: usize = 0;
    while i < verdicts.len()
        invariant
            0 <= i <= verdicts.len(),
            forall|j: int| 0 <= j < i ==> !verdicts@[j],
        decreases verdicts.len() - i,
    {
        if verdicts[i] {
            proof {
                assert(is_first_true(verdicts@, i as int));
                lemma_first_true_unique(verdicts@, i as int, first_true(verdicts@)->0);
            }
            return Some(i);
        }
        i = i + 1;
    }
    None
}

/// Picks the first of `urls` whose verdict is `true`. The verdict at a
/// place belongs to the URL at that place.
pub fn pick_link(urls: &Vec<String>, verdicts: &Vec<bool>) -> (link: Option<String>)
    ensures
        match link {
            Some(url) => pick(string_views(urls@), verdicts@) == Some(url@),
            None => pick(string_views(urls@), verdicts@) is None,
        },
{
    match first_match(verdicts) {
        Some(i) => {
            if i < urls.len() {
                Some(urls[i].clone())
            } else {
                None
            }
        },
        None => None,
    }
}

/// Tells whether `url` has one of the supported shapes.
pub fn is_supported(url: &str) -> (supported: bool)
    ensures
        supported == is_supported_link(url@),
{
    match search_pattern(
        r"https://vm\.tiktok\.com/[A-Za-z0-9]+|https://www.instagram.com/reel/[A-Za-z0-9]+",
        url,
    ) {
        Some(found) => found,
        None => false,
    }
}

/// Finds the link that a message dispatches: the first text, in entity
/// order, that an entity marks as a URL and that has a supported shape.
/// A message dispatches one link at most.
pub fn find_supported_link(text: &str, entities: &Vec<Entity>) -> (link: Option<String>)
    ensures
        match link {
            Some(url) => select_link(text@, entities@) == Some(url@),
            None => select_link(text@, entities@) is None,
        },
{
    let urls = extract_urls(text, entities);
    let mut verdicts: Vec<bool> = Vec::new();
    let mut i: usize = 0;
    while i < urls.len()
        invariant
            0 <= i <= urls.len(),
            verdicts.len() == i,
            forall|j: int| 0 <= j < i ==> verdicts@[j] == is_supported_link(#[trigger] urls@[j]@),
        decreases urls.len() - i,
    {
        verdicts.push(is_supported(urls[i].as_str()));
        i = i + 1;
    }
    assert(verdicts@ =~= string_views(urls@).map_values(|url: Seq<char>| is_supported_link(url)));
    pick_link(&urls, &verdicts)
}

} // verus!
