use spider::extract::{extract, ElementKind};
use spider::norm::normalize;
use spider::state::{
    is_novel, mark_harvested, record_discovery, resolve, should_continue, spawn, CrawlState,
};
use spider::step::{process_body, select_next, step};
use spider::CrawlError;

fn seeded(seed: &str) -> CrawlState {
    spawn(&seed.to_string()).expect("seed must parse")
}

#[test]
fn scope_derivation() {
    assert_eq!(
        resolve("https://example.com/a/b"),
        Ok("https://example.com".to_string())
    );
}

#[test]
fn scope_of_root_seed() {
    assert_eq!(
        resolve("https://example.com/"),
        Ok("https://example.com".to_string())
    );
}

#[test]
fn scope_falls_back_to_seed() {
    // The parsed path is "/", which is not a suffix of the seed text,
    // so the seed comes back unchanged.
    assert_eq!(
        resolve("https://example.com"),
        Ok("https://example.com".to_string())
    );
}

#[test]
fn resolve_rejects_unparseable_seed() {
    assert_eq!(resolve("not a url"), Err(CrawlError::InvalidSeedUrl));
    assert_eq!(resolve("/only/a/path"), Err(CrawlError::InvalidSeedUrl));
}

#[test]
fn normalize_absolute_in_scope() {
    assert_eq!(
        normalize("https://example.com/x?y=1#z", "https://example.com"),
        "https://example.com/x".to_string()
    );
}

#[test]
fn normalize_root_relative() {
    assert_eq!(
        normalize("/about", "https://example.com"),
        "https://example.com/about".to_string()
    );
}

#[test]
fn normalize_rejected() {
    assert_eq!(normalize("../sibling", "https://example.com"), String::new());
    assert_eq!(
        normalize("https://other.com/x", "https://example.com"),
        String::new()
    );
    assert_eq!(normalize("", "https://example.com"), String::new());
    assert_eq!(normalize("page.html", "https://example.com"), String::new());
}

#[test]
fn normalize_strips_decoration_in_order() {
    assert_eq!(
        normalize("/a#frag?not-a-query", "https://example.com"),
        "https://example.com/a".to_string()
    );
    assert_eq!(
        normalize("#fragment-only", "https://example.com"),
        String::new()
    );
}

#[test]
fn novelty_idempotent() {
    let mut state = seeded("https://example.com/");
    let u = "https://example.com/a".to_string();
    record_discovery(&u, &mut state);
    assert_eq!(state.found, 1);
    assert_eq!(state.queued, vec!["https://example.com/a".to_string()]);
    record_discovery(&u, &mut state);
    assert_eq!(state.found, 1);
    assert_eq!(state.queued, vec!["https://example.com/a".to_string()]);
}

#[test]
fn record_rejects_empty() {
    let mut state = seeded("https://example.com/");
    record_discovery(&String::new(), &mut state);
    assert_eq!(state.found, 0);
    assert!(state.queued.is_empty());
}

#[test]
fn harvested_exclusion() {
    let mut state = seeded("https://example.com/");
    let visited = "https://example.com/a".to_string();
    assert!(mark_harvested(&visited, &mut state));
    assert_eq!(state.harvested, vec!["/a".to_string()]);
    // The exact URL, and any later-discovered form normalizing to the
    // same path, are no longer novel.
    assert!(!is_novel(&visited, &state));
    let decorated = normalize("/a#fragment", &state.scope);
    assert_eq!(decorated, "https://example.com/a".to_string());
    assert!(!is_novel(&decorated, &state));
}

#[test]
fn mark_harvested_dedups_and_rejects_unparseable() {
    let mut state = seeded("https://example.com/");
    let visited = "https://example.com/a".to_string();
    assert!(mark_harvested(&visited, &mut state));
    assert!(mark_harvested(&visited, &mut state));
    assert_eq!(state.harvested, vec!["/a".to_string()]);
    assert!(!mark_harvested(&"no scheme here".to_string(), &mut state));
    assert_eq!(state.harvested, vec!["/a".to_string()]);
}

#[test]
fn queued_comparison_is_textual() {
    // The harvested set is keyed by path, the queue by the full URL
    // string: a path-equivalent but textually different form is still
    // novel.
    let mut state = seeded("https://example.com/");
    let u = "https://example.com/a".to_string();
    record_discovery(&u, &mut state);
    assert!(!is_novel(&u, &state));
    let equivalent_path = "https://example.com:443/a".to_string();
    assert!(is_novel(&equivalent_path, &state));
}

#[test]
fn unparseable_url_is_not_novel() {
    let state = seeded("https://example.com/");
    assert!(!is_novel(&"no scheme here".to_string(), &state));
}

#[test]
fn single_page_terminates() {
    let mut state = seeded("https://ex.com/");
    assert!(should_continue(&state));
    let body = "<html><body><p>no links at all</p></body></html>".to_string();
    assert_eq!(step(&mut state, &body, true), Ok(()));
    assert_eq!(state.done, 1);
    assert_eq!(state.found, 0);
    assert!(state.queued.is_empty());
    assert_eq!(state.current, "https://ex.com/".to_string());
    assert!(!should_continue(&state));
}

const SCENARIO_BODY: &str = "<html><body><a href=\"/a\">A</a><a href=\"/b\">B</a><a href=\"https://outside.com/c\">C</a></body></html>";

#[test]
fn end_to_end_scenario() {
    let mut state = seeded("https://ex.com/");
    assert_eq!(state.scope, "https://ex.com".to_string());
    assert_eq!(
        process_body(&mut state, &SCENARIO_BODY.to_string(), false),
        Ok(())
    );
    assert_eq!(state.harvested, vec!["/".to_string()]);
    assert_eq!(
        state.queued,
        vec!["https://ex.com/a".to_string(), "https://ex.com/b".to_string()]
    );
    assert_eq!(state.found, 2);
    assert_eq!(state.done, 1);
    // The next location is the first discovery, in order.
    select_next(&mut state);
    assert_eq!(state.current, "https://ex.com/a".to_string());
    assert_eq!(state.queued, vec!["https://ex.com/b".to_string()]);
}

const IMAGE_BODY: &str = "<html><body><a href=\"/a\">A</a><a href=\"/b\">B</a><a href=\"https://outside.com/c\">C</a><img src=\"/pic.png\"></body></html>";

#[test]
fn image_flag_enabled() {
    let mut state = seeded("https://ex.com/");
    assert_eq!(
        process_body(&mut state, &IMAGE_BODY.to_string(), true),
        Ok(())
    );
    assert!(state.queued.contains(&"https://ex.com/pic.png".to_string()));
    assert_eq!(state.found, 3);
}

#[test]
fn image_flag_disabled() {
    let mut state = seeded("https://ex.com/");
    assert_eq!(
        process_body(&mut state, &IMAGE_BODY.to_string(), false),
        Ok(())
    );
    assert!(!state.queued.contains(&"https://ex.com/pic.png".to_string()));
    assert_eq!(state.found, 2);
}

#[test]
fn duplicate_links_counted_once() {
    let body = "<html><body><a href=\"/a\">first</a><a href=\"/a#section\">same page</a></body></html>";
    let mut state = seeded("https://ex.com/");
    assert_eq!(process_body(&mut state, &body.to_string(), false), Ok(()));
    assert_eq!(state.queued, vec!["https://ex.com/a".to_string()]);
    assert_eq!(state.found, 1);
}

#[test]
fn step_rejects_unparseable_current() {
    let mut state = CrawlState {
        scope: "https://ex.com".to_string(),
        current: "no scheme here".to_string(),
        done: 0,
        found: 0,
        harvested: Vec::new(),
        queued: Vec::new(),
    };
    assert!(state.is_well_formed());
    let body = "<html></html>".to_string();
    assert_eq!(
        step(&mut state, &body, true),
        Err(CrawlError::InvalidSeedUrl)
    );
    assert_eq!(state.done, 0);
    assert!(state.harvested.is_empty());
}

#[test]
fn step_rejects_counter_overflow() {
    let body = "<html><body><a href=\"/a\">A</a></body></html>".to_string();

    let mut state = seeded("https://ex.com/");
    state.found = u64::MAX;
    assert_eq!(
        step(&mut state, &body, false),
        Err(CrawlError::CounterOverflow)
    );
    assert_eq!(state.found, u64::MAX);
    assert_eq!(state.done, 0);
    assert!(state.harvested.is_empty());

    let mut state = seeded("https://ex.com/");
    state.done = u64::MAX;
    assert_eq!(
        step(&mut state, &body, false),
        Err(CrawlError::CounterOverflow)
    );
    assert_eq!(state.done, u64::MAX);
}

#[test]
fn step_rejects_oversized_body() {
    let mut state = seeded("https://ex.com/");
    let body = "a".repeat(spider::extract::EXTRACTOR_CHAR_LIMIT + 1);
    assert_eq!(step(&mut state, &body, false), Err(CrawlError::BodyTooLarge));
    assert_eq!(state.done, 0);
    assert!(state.harvested.is_empty());
}

#[test]
fn extractor_finds_attribute_values() {
    let links = extract(IMAGE_BODY, ElementKind::Link);
    assert_eq!(
        links,
        vec![
            "/a".to_string(),
            "/b".to_string(),
            "https://outside.com/c".to_string()
        ]
    );
    let images = extract(IMAGE_BODY, ElementKind::Image);
    assert_eq!(images, vec!["/pic.png".to_string()]);
    assert!(extract("<html><body>plain</body></html>", ElementKind::Link).is_empty());
}

#[test]
fn continue_condition() {
    let mut state = seeded("https://ex.com/");
    assert!(should_continue(&state));
    state.done = 1;
    state.found = 2;
    assert!(should_continue(&state));
    state.done = 2;
    assert!(!should_continue(&state));
}

#[test]
fn well_formedness_check() {
    let mut state = seeded("https://ex.com/");
    record_discovery(&"https://ex.com/a".to_string(), &mut state);
    assert!(state.is_well_formed());
    state.queued.push("https://ex.com/a".to_string());
    assert!(!state.is_well_formed());
    state.queued.pop();
    state.queued.push("https://other.com/b".to_string());
    assert!(!state.is_well_formed());
}
