use server_roulette::click::{make_click_waveform, synthesize_click};
use server_roulette::easing::compute_eased;
use server_roulette::engine::{Engine, Phase};
use server_roulette::fetch::{FetchProgress, PageOutcome};
use server_roulette::present::{record_at, repetitions_needed};
use server_roulette::records::{filter_eligible, is_eu_country, RawRecord, ServerItem};

fn raw(name: &str, country: Option<&str>) -> RawRecord {
    RawRecord {
        name: name.to_string(),
        players: 70,
        max_players: 100,
        map: None,
        mode: None,
        country: country.map(|c| c.to_string()),
    }
}

fn item(name: &str, country: &str) -> ServerItem {
    ServerItem {
        name: name.to_string(),
        players: 70,
        max_players: 100,
        map: "Unknown".to_string(),
        mode: "Unknown".to_string(),
        country: country.to_string(),
    }
}

fn engine_with(listing: Vec<ServerItem>) -> Engine {
    let mut e = Engine::new();
    assert!(e.begin_fetch());
    e.deliver_listing(listing);
    e
}

#[test]
fn easing_starts_at_zero() {
    assert_eq!(compute_eased(0, 800_000, 0, 10_000), 0);
}

#[test]
fn easing_midpoint_exact() {
    // at half time the remaining fraction is (1/2)^7 = 1/128 of the span
    assert_eq!(compute_eased(0, 800_000, 5_000, 10_000), 800_000 - 6_250);
}

#[test]
fn easing_reaches_target_near_end() {
    assert_eq!(compute_eased(0, 1_600_000_000, 14_999, 15_000), 1_600_000_000);
    assert_eq!(compute_eased(0, 123_456, 10_000, 10_000), 123_456);
}

#[test]
fn easing_is_monotone_sampled() {
    let mut prev = 0i64;
    for e in 0..=200u64 {
        let v = compute_eased(0, 1_000_000_000, e * 50, 10_000);
        assert!(v >= prev);
        assert!(v <= 1_000_000_000);
        prev = v;
    }
}

#[test]
fn filter_keeps_de_drops_us() {
    let records = vec![raw("a", Some("US")), raw("b", Some("DE"))];
    let out = filter_eligible(&records);
    assert_eq!(out.len(), 1);
    assert_eq!(out[0].name, "b");
    assert_eq!(out[0].country, "DE");
}

#[test]
fn filter_applies_defaults() {
    let records = vec![RawRecord {
        name: "srv".to_string(),
        players: 12,
        max_players: 80,
        map: None,
        mode: Some("RAAS".to_string()),
        country: Some("SE".to_string()),
    }];
    let out = filter_eligible(&records);
    assert_eq!(out.len(), 1);
    assert_eq!(out[0].map, "Unknown");
    assert_eq!(out[0].mode, "RAAS");
    assert_eq!(out[0].players, 12);
    assert_eq!(out[0].max_players, 80);
}

#[test]
fn filter_missing_country_is_excluded() {
    let out = filter_eligible(&vec![raw("x", None)]);
    assert_eq!(out.len(), 0);
}

#[test]
fn allow_list_has_exactly_the_eu_codes() {
    for c in [
        "DE", "FR", "PL", "GB", "UA", "NL", "CZ", "SK", "IT", "ES", "AT", "BE", "DK", "SE",
        "NO", "FI", "IE", "TR",
    ] {
        assert!(is_eu_country(&c.to_string()), "{c} should be allowed");
    }
    for c in ["US", "BR", "??", "", "de", "EU"] {
        assert!(!is_eu_country(&c.to_string()), "{c} should be excluded");
    }
}

#[test]
fn pagination_keeps_pages_before_a_failure() {
    let mut fp = FetchProgress::new();
    for k in 0..3 {
        assert!(fp.should_fetch());
        let name = format!("srv{k}");
        fp.apply_page(PageOutcome::Page {
            records: vec![raw(&name, Some("DE")), raw("noise", Some("US"))],
            has_next: true,
        });
    }
    assert!(fp.should_fetch());
    fp.apply_page(PageOutcome::Failed);
    assert!(!fp.should_fetch());
    assert_eq!(fp.pages_fetched, 4);
    let names: Vec<&str> = fp.collected.iter().map(|s| s.name.as_str()).collect();
    assert_eq!(names, vec!["srv0", "srv1", "srv2"]);
}

#[test]
fn pagination_stops_at_five_pages() {
    let mut fp = FetchProgress::new();
    for _ in 0..5 {
        assert!(fp.should_fetch());
        fp.apply_page(PageOutcome::Page { records: vec![raw("s", Some("FR"))], has_next: true });
    }
    assert!(!fp.should_fetch());
    assert_eq!(fp.collected.len(), 5);
}

#[test]
fn pagination_stops_without_cursor() {
    let mut fp = FetchProgress::new();
    fp.apply_page(PageOutcome::Page { records: vec![raw("s", Some("IT"))], has_next: false });
    assert!(!fp.should_fetch());
    assert_eq!(fp.pages_fetched, 1);
}

#[test]
fn end_to_end_filter_and_spin() {
    // Listing A(DE), B(US), C(FR): after filtering the eligible
    // records are [A, C]; a draw of index 1 picks C, and the target
    // row is loops * 2 + 1 with loops = max(3, ceil(100 / 2)) = 50.
    let records = vec![raw("A", Some("DE")), raw("B", Some("US")), raw("C", Some("FR"))];
    let eligible = filter_eligible(&records);
    let names: Vec<&str> = eligible.iter().map(|s| s.name.as_str()).collect();
    assert_eq!(names, vec!["A", "C"]);

    let mut e = engine_with(eligible);
    assert_eq!(e.phase, Phase::Idle);
    assert!(e.spin_allowed());
    e.start_spin_with(1, 10_000, 7_000);
    assert_eq!(e.phase, Phase::Spinning);
    assert_eq!(e.selected.as_ref().unwrap().name, "C");
    assert_eq!(e.target_milli, (50 * 2 + 1) * 80_000 + 7_000);
    assert_eq!(e.current_milli, 0);
    assert_eq!(e.duration_ms, 10_000);
}

#[test]
fn spin_needs_fresh_nonempty_listing() {
    let mut e = Engine::new();
    assert!(!e.spin_allowed());
    assert!(!e.start_spin());
    assert_eq!(e.phase, Phase::Idle);

    let mut e = engine_with(Vec::new());
    // an empty fetch result settles the engine and spinning stays off
    assert_eq!(e.phase, Phase::Settled);
    assert!(!e.spin_allowed());
    assert!(!e.start_spin());

    let mut e = engine_with(vec![item("a", "DE")]);
    e.set_min_players(10);
    assert!(e.needs_update);
    assert!(!e.spin_allowed());
}

#[test]
fn fetch_guards_and_staleness() {
    let mut e = Engine::new();
    assert!(e.needs_update);
    assert!(e.begin_fetch());
    assert_eq!(e.phase, Phase::Loading);
    assert!(!e.needs_update);
    // a second fetch while one is in flight is rejected
    assert!(!e.begin_fetch());
    e.deliver_listing(vec![item("a", "DE")]);
    assert_eq!(e.phase, Phase::Idle);
    // moving a bound to its current value is no change
    e.set_min_players(60);
    assert!(!e.needs_update);
    e.set_max_players(90);
    assert!(e.needs_update);
}

#[test]
fn random_spin_picks_an_element_in_range() {
    let listing = vec![item("a", "DE"), item("b", "FR"), item("c", "PL")];
    let mut e = engine_with(listing);
    assert!(e.start_spin());
    assert_eq!(e.phase, Phase::Spinning);
    assert!((10_000..15_000).contains(&e.duration_ms));
    let w = e.selected.as_ref().unwrap().name.clone();
    assert!(["a", "b", "c"].contains(&w.as_str()));
    // loops = max(3, ceil(100/3)) = 34, so the winner row is 102..=104
    let lo = 102 * 80_000 - 30_000;
    let hi = 104 * 80_000 + 30_000;
    assert!(e.target_milli >= lo && e.target_milli < hi);
}

#[test]
fn tick_settles_and_then_changes_nothing() {
    let mut e = engine_with(vec![item("a", "DE"), item("b", "FR")]);
    e.start_spin_with(0, 10_000, -5_000);
    assert!(!e.tick(10_000));
    assert_eq!(e.phase, Phase::Settled);
    assert_eq!(e.current_milli, e.target_milli);
    let snapshot = (
        e.phase,
        e.current_milli,
        e.target_milli,
        e.last_click_row,
        e.duration_ms,
        e.selected.as_ref().unwrap().name.clone(),
    );
    for t in [0u64, 5_000, 20_000] {
        assert!(!e.tick(t));
    }
    assert_eq!(
        snapshot,
        (
            e.phase,
            e.current_milli,
            e.target_milli,
            e.last_click_row,
            e.duration_ms,
            e.selected.as_ref().unwrap().name.clone(),
        )
    );
}

fn run_spin_counting_clicks(step_ms: u64) -> (u64, u64) {
    let mut e = engine_with(vec![item("a", "DE"), item("b", "FR"), item("c", "NL")]);
    e.start_spin_with(2, 12_000, 11_000);
    let mut clicks: u64 = 0;
    let mut distinct: u64 = 0;
    let mut last_row_seen: i64 = -1;
    let mut t: u64 = 0;
    while e.phase == Phase::Spinning {
        let before = e.phase;
        let clicked = e.tick(t);
        if clicked {
            clicks += 1;
        }
        if before == Phase::Spinning && e.phase == Phase::Spinning {
            let row = (e.current_milli + 40_000) / 80_000;
            assert!(row >= last_row_seen, "offsets move forward");
            if row > last_row_seen {
                distinct += 1;
                last_row_seen = row;
            }
        }
        t += step_ms;
    }
    (clicks, distinct)
}

#[test]
fn clicks_fire_once_per_attained_row() {
    // one click per distinct virtual row the scroll attains, at a
    // coarse and at a fine tick granularity alike
    for step in [7u64, 33, 120] {
        let (clicks, distinct) = run_spin_counting_clicks(step);
        assert_eq!(clicks, distinct);
        assert!(clicks > 0);
    }
}

#[test]
fn click_filter_and_envelope_exact() {
    // one sample: filter moves from rest toward the raw sample by 15%,
    // the envelope is (1 - 0/1)^2 = 1 and the gain is 3
    let out = synthesize_click(&vec![1_100_000]);
    assert_eq!(out, vec![45_000]);

    // silence in, silence out: the filter stays at rest
    let out = synthesize_click(&vec![1_000_000; 5]);
    assert_eq!(out, vec![0, 0, 0, 0, 0]);
}

#[test]
fn click_envelope_decays_quadratically() {
    // a constant loud input: sample i carries envelope (n - i)^2
    let out = synthesize_click(&vec![1_999_999, 1_999_999]);
    // filter: 1_000_000 -> 1_149_999 -> 1_277_499 (offset space)
    assert_eq!(out[0], 149_999 * 3 * 2 * 2);
    assert_eq!(out[1], 277_499 * 3 * 1 * 1);
}

#[test]
fn waveform_has_the_fixed_length() {
    let w = make_click_waveform();
    assert_eq!(w.len(), 882);
    let bound = 3 * 1_000_000i64 * 882 * 882;
    assert!(w.iter().all(|&v| -bound <= v && v <= bound));
}

#[test]
fn repetitions_cover_the_longest_scroll() {
    assert_eq!(repetitions_needed(3), 37 + 2);
    assert_eq!(repetitions_needed(110), 1 + 2);
    assert_eq!(repetitions_needed(200), 1 + 2);
    assert_eq!(repetitions_needed(1), 110 + 2);
}

#[test]
fn rows_wrap_around_the_listing() {
    let listing = vec![item("a", "DE"), item("b", "FR")];
    assert_eq!(record_at(&listing, 0).name, "a");
    assert_eq!(record_at(&listing, 1).name, "b");
    assert_eq!(record_at(&listing, 5).name, "b");
    assert_eq!(record_at(&listing, 8).name, "a");
}

#[test]
fn new_engine_defaults() {
    let e = Engine::new();
    assert_eq!(e.min_players, 60);
    assert_eq!(e.max_players, 100);
    assert_eq!(e.phase, Phase::Idle);
    assert!(e.listing.is_empty());
    assert!(e.selected.is_none());
    assert_eq!(e.current_milli, 0);
    assert_eq!(e.last_click_row, -1);
}
