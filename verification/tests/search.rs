use person_registry::cycle::FLUSH_INTERVAL_SECS;
use person_registry::model::SearchParams;
use person_registry::search::{search_pattern, wildcard_pattern};

#[test]
fn search_params_give_their_pattern() {
    let params = SearchParams { target: "Joe S".to_string() };
    assert_eq!(params.pattern(), "%joe s%");
}

#[test]
fn flusher_ticks_every_two_seconds() {
    assert_eq!(FLUSH_INTERVAL_SECS, 2);
}

#[test]
fn pattern_is_lowercase_between_wildcards() {
    assert_eq!(search_pattern("RuSt"), "%rust%");
    assert_eq!(search_pattern(""), "%%");
    assert_eq!(search_pattern("ÁRVORE go"), "%árvore go%");
}

#[test]
fn wildcard_pattern_keeps_its_argument() {
    assert_eq!(wildcard_pattern("RuSt"), "%RuSt%");
}
