use arto::pinned_search::{
    add_pinned_search, default_version, remove_pinned_search, set_pinned_search_color,
    timestamp_from_reading, toggle_pinned_search_disabled, ClockReading, HighlightColor, PinnedSearch,
    PinnedSearchId, PinnedSearches, Timestamp,
};

#[test]
fn test_pinned_search_id_generation() {
    let id1 = PinnedSearchId::new().unwrap();
    let id2 = PinnedSearchId::new().unwrap();
    assert_ne!(id1, id2);
    assert!(id1.as_str().starts_with("ps_"));
}

#[test]
fn pinned_search_id_has_hex_suffix() {
    let id = PinnedSearchId::new().unwrap();
    let text = id.to_string();
    assert_eq!(text.len(), 35);
    assert!(text[3..].chars().all(|c| c.is_ascii_digit() || ('a'..='f').contains(&c)));
}

#[test]
fn pinned_search_id_from_string_keeps_text() {
    let id = PinnedSearchId::from(String::from("ps_custom"));
    assert_eq!(id.as_str(), "ps_custom");
    assert_eq!(PinnedSearchId::from_string(String::from("x")).as_str(), "x");
}

#[test]
fn test_highlight_color_css_class() {
    assert_eq!(HighlightColor::Green.css_class(), "highlight-green");
    assert_eq!(HighlightColor::Blue.css_class(), "highlight-blue");
    assert_eq!(HighlightColor::Pink.css_class(), "highlight-pink");
    assert_eq!(HighlightColor::Orange.css_class(), "highlight-orange");
    assert_eq!(HighlightColor::Purple.css_class(), "highlight-purple");
}

#[test]
fn highlight_color_js_names() {
    assert_eq!(HighlightColor::Green.to_js_name(), "green");
    assert_eq!(HighlightColor::Blue.to_js_name(), "blue");
    assert_eq!(HighlightColor::Pink.to_js_name(), "pink");
    assert_eq!(HighlightColor::Orange.to_js_name(), "orange");
    assert_eq!(HighlightColor::Purple.to_js_name(), "purple");
}

#[test]
fn highlight_color_default_and_all() {
    assert_eq!(HighlightColor::default(), HighlightColor::Green);
    assert_eq!(HighlightColor::ALL.len(), 5);
    assert_eq!(HighlightColor::ALL[0], HighlightColor::Green);
    assert_eq!(HighlightColor::ALL[4], HighlightColor::Purple);
}

#[test]
fn test_highlight_color_next_rotation() {
    assert_eq!(HighlightColor::Green.next(), HighlightColor::Blue);
    assert_eq!(HighlightColor::Blue.next(), HighlightColor::Pink);
    assert_eq!(HighlightColor::Pink.next(), HighlightColor::Orange);
    assert_eq!(HighlightColor::Orange.next(), HighlightColor::Purple);
    assert_eq!(HighlightColor::Purple.next(), HighlightColor::Green);
}

#[test]
fn highlight_color_rotation_returns_after_five_steps() {
    for c in HighlightColor::ALL {
        assert_eq!(c.next().next().next().next().next(), c);
    }
}

#[test]
fn test_pinned_search_creation() {
    let pinned = PinnedSearch::new("TODO", HighlightColor::Orange).unwrap();
    assert_eq!(pinned.pattern, "TODO");
    assert_eq!(pinned.color, HighlightColor::Orange);
    assert!(!pinned.case_sensitive);
    assert!(!pinned.disabled);
}

#[test]
fn pinned_searches_default_is_empty_version_one() {
    let searches = PinnedSearches::default();
    assert_eq!(searches.version, 1);
    assert!(searches.pinned_searches.is_empty());
    assert_eq!(default_version(), 1);
}

#[test]
fn test_pinned_searches_add_remove() {
    let mut searches = PinnedSearches::default();

    let search = searches.add("TODO").unwrap();
    let id = search.id.clone();
    assert_eq!(searches.pinned_searches.len(), 1);
    assert!(searches.contains_pattern("TODO"));

    assert!(searches.remove(&id));
    assert_eq!(searches.pinned_searches.len(), 0);
    assert!(!searches.contains_pattern("TODO"));
}

#[test]
fn remove_unknown_id_changes_nothing() {
    let mut searches = PinnedSearches::default();
    searches.add("A");
    let unknown = PinnedSearchId::from_string(String::from("ps_unknown"));
    assert!(!searches.remove(&unknown));
    assert_eq!(searches.pinned_searches.len(), 1);
    assert!(!searches.set_color(&unknown, HighlightColor::Pink));
    assert!(!searches.toggle_disabled(&unknown));
    assert_eq!(searches.pinned_searches[0].color, HighlightColor::Green);
    assert!(!searches.pinned_searches[0].disabled);
}

#[test]
fn test_pinned_searches_color_distribution() {
    let mut searches = PinnedSearches::default();

    // Add 5 pinned searches - should use all 5 colors
    searches.add("A");
    searches.add("B");
    searches.add("C");
    searches.add("D");
    searches.add("E");

    let colors: Vec<_> = searches.pinned_searches.iter().map(|p| p.color).collect();
    assert!(colors.contains(&HighlightColor::Green));
    assert!(colors.contains(&HighlightColor::Blue));
    assert!(colors.contains(&HighlightColor::Pink));
    assert!(colors.contains(&HighlightColor::Orange));
    assert!(colors.contains(&HighlightColor::Purple));
}

#[test]
fn test_pinned_searches_next_color_uses_existing_last_color() {
    let mut searches = PinnedSearches::default();
    searches
        .pinned_searches
        .push(PinnedSearch::new("Existing", HighlightColor::Blue).unwrap());

    let new_pin = searches.add("New").unwrap();
    assert_eq!(new_pin.color, HighlightColor::Pink);
}

#[test]
fn test_pinned_searches_toggle_disabled() {
    let mut searches = PinnedSearches::default();
    let search = searches.add("TODO").unwrap();
    let id = search.id.clone();

    assert!(!searches.pinned_searches[0].disabled);

    assert!(searches.toggle_disabled(&id));
    assert!(searches.pinned_searches[0].disabled);

    assert!(searches.toggle_disabled(&id));
    assert!(!searches.pinned_searches[0].disabled);
}

#[test]
fn test_pinned_searches_set_color() {
    let mut searches = PinnedSearches::default();
    let search = searches.add("TODO").unwrap();
    let id = search.id.clone();

    assert!(searches.set_color(&id, HighlightColor::Pink));
    assert_eq!(searches.pinned_searches[0].color, HighlightColor::Pink);
}

#[test]
fn global_style_functions_report_changes() {
    let mut searches = PinnedSearches::default();
    let id = add_pinned_search(&mut searches, "TODO").unwrap();
    assert_eq!(searches.pinned_searches.len(), 1);
    assert_eq!(searches.pinned_searches[0].id, id);
    assert!(set_pinned_search_color(&mut searches, &id, HighlightColor::Purple));
    assert_eq!(searches.pinned_searches[0].color, HighlightColor::Purple);
    assert!(toggle_pinned_search_disabled(&mut searches, &id));
    assert!(searches.pinned_searches[0].disabled);
    assert!(remove_pinned_search(&mut searches, &id));
    assert!(!remove_pinned_search(&mut searches, &id));
    assert!(searches.pinned_searches.is_empty());
}

#[test]
fn id_from_random_bytes_is_the_v4_uuid_of_the_bytes() {
    let bytes: Vec<u8> = (0u8..16).collect();
    let id = PinnedSearchId::from_random_bytes(&bytes);
    assert_eq!(id.as_str(), "ps_000102030405460788090a0b0c0d0e0f");
    let ones = [0xffu8; 16];
    let id = PinnedSearchId::from_random_bytes(&ones);
    assert_eq!(id.as_str(), "ps_ffffffffffff4fffbfffffffffffffff");
}

#[test]
fn from_parts_keeps_every_part() {
    let id = PinnedSearchId::from_string("ps_x".to_string());
    let at = Timestamp { secs: 1_700_000_000, nanos: 5 };
    let p = PinnedSearch::from_parts(id.clone(), "needle", HighlightColor::Orange, at);
    assert_eq!(p.id, id);
    assert_eq!(p.pattern, "needle");
    assert_eq!(p.color, HighlightColor::Orange);
    assert!(!p.case_sensitive);
    assert!(!p.disabled);
    assert_eq!(p.created_at, at);
}

#[test]
fn add_with_appends_in_rotation_order() {
    let mut searches = PinnedSearches::default();
    let at = Timestamp { secs: 0, nanos: 0 };
    for (i, name) in ["A", "B", "C", "D", "E"].iter().enumerate() {
        searches.add_with(name, PinnedSearchId::from_string(format!("ps_{i}")), at);
    }
    let colors: Vec<HighlightColor> = searches.pinned_searches.iter().map(|p| p.color).collect();
    assert_eq!(
        colors,
        vec![
            HighlightColor::Green,
            HighlightColor::Blue,
            HighlightColor::Pink,
            HighlightColor::Orange,
            HighlightColor::Purple
        ]
    );
    assert_eq!(searches.pinned_searches[2].id.as_str(), "ps_2");
    assert_eq!(searches.pinned_searches[4].pattern, "E");
}

#[test]
fn timestamps_from_clock_readings() {
    let after = ClockReading { after_epoch: true, secs: 10, nanos: 7 };
    assert_eq!(timestamp_from_reading(after), Some(Timestamp { secs: 10, nanos: 7 }));
    let before_whole = ClockReading { after_epoch: false, secs: 5, nanos: 0 };
    assert_eq!(timestamp_from_reading(before_whole), Some(Timestamp { secs: -5, nanos: 0 }));
    let before = ClockReading { after_epoch: false, secs: 1, nanos: 500_000_000 };
    assert_eq!(timestamp_from_reading(before), Some(Timestamp { secs: -2, nanos: 500_000_000 }));
    let too_far = ClockReading { after_epoch: true, secs: u64::MAX, nanos: 0 };
    assert_eq!(timestamp_from_reading(too_far), None);
}
