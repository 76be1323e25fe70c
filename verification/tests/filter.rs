use quartz_proxy::filter::PacketFilter;

#[test]
fn starts_as_an_empty_whitelist() {
    let filter = PacketFilter::new();
    assert!(filter.is_whitelist);
    assert!(!filter.disabled);
    assert!(filter.filter.is_empty());
    assert!(filter.suppress_warnings.is_empty());
    assert!(!filter.test("Handshake { protocol_version: 756 }"));
    assert!(!filter.test(""));
    assert!(!filter.should_suppress_warning(0x2A));
}

#[test]
fn whitelist_logs_what_it_lists() {
    let mut filter = PacketFilter::new();
    assert!(filter.update("keepalive".to_owned(), false));
    assert!(filter.test("KeepAlive { id: 7 }"));
    assert!(filter.test("KeepAlive"));
    assert!(filter.test("KEEPALIVE "));
    assert!(!filter.test("KeepAliveReply { id: 7 }"));
    assert!(!filter.test("Chat KeepAlive"));
    assert!(!filter.test(" KeepAlive"));
}

#[test]
fn blacklist_logs_what_it_does_not_list() {
    let mut filter = PacketFilter::new();
    filter.reset_as(false);
    assert!(filter.test("KeepAlive { id: 7 }"));
    assert!(filter.update("keepalive".to_owned(), true));
    assert!(!filter.test("KeepAlive { id: 7 }"));
    assert!(filter.test("Chat { message: \"hi\" }"));
}

#[test]
fn update_tells_whether_it_changed_anything() {
    let mut filter = PacketFilter::new();
    assert!(!filter.update("chat".to_owned(), true));
    assert!(filter.update("chat".to_owned(), false));
    assert!(!filter.update("chat".to_owned(), false));
    assert_eq!(filter.filter, vec!["chat".to_owned()]);
    assert!(filter.update("chat".to_owned(), true));
    assert!(filter.filter.is_empty());
}

#[test]
fn the_last_update_counts() {
    for whitelist in [true, false] {
        for first in [true, false] {
            for last in [true, false] {
                let mut filter = PacketFilter::new();
                filter.reset_as(whitelist);
                filter.update("chat".to_owned(), first);
                filter.update("chat".to_owned(), last);
                assert_eq!(filter.test("Chat {}"), !last);
                assert_eq!(filter.test("Login {}"), !whitelist);
            }
        }
    }
}

#[test]
fn updates_for_different_names_commute() {
    let mut left = PacketFilter::new();
    left.update("b".to_owned(), false);
    left.update("a".to_owned(), false);
    let mut right = PacketFilter::new();
    right.update("a".to_owned(), false);
    right.update("b".to_owned(), false);
    assert_eq!(left.filter, right.filter);
    assert_eq!(left.listing(), "[whitelist] a, b");
}

#[test]
fn names_are_listed_as_they_are_given() {
    // Names are taken to be in small letters: others never match a packet.
    let mut filter = PacketFilter::new();
    filter.update("Chat".to_owned(), false);
    assert!(!filter.test("Chat {}"));
}

#[test]
fn listing_is_sorted_like_std_sorts() {
    let names = [
        "tags", "ab", "a", "", "b", "é", "z", "aa", "\u{10000}", "\u{ffff}", "a-b", "a b", "ä",
    ];
    let mut filter = PacketFilter::new();
    for name in names {
        assert!(filter.update(name.to_owned(), false));
    }
    let mut sorted: Vec<String> = names.iter().map(|name| name.to_string()).collect();
    sorted.sort();
    assert_eq!(filter.listing(), format!("[whitelist] {}", sorted.join(", ")));
    for name in names {
        assert!(!filter.update(name.to_owned(), false));
        assert!(filter.update(name.to_owned(), true));
        assert!(!filter.update(name.to_owned(), true));
    }
    assert_eq!(filter.listing(), "[whitelist] <empty>");
}

#[test]
fn listing_names_the_mode() {
    let mut filter = PacketFilter::new();
    assert_eq!(filter.listing(), "[whitelist] <empty>");
    filter.reset_as(false);
    assert_eq!(filter.listing(), "[blacklist] <empty>");
    filter.update("chat".to_owned(), true);
    assert_eq!(filter.listing(), "[blacklist] chat");
}

#[test]
fn resetting_clears_the_entries() {
    let mut filter = PacketFilter::new();
    filter.update("chat".to_owned(), false);
    filter.update_warning_suppression(3, true);
    filter.set_disabled(true);
    filter.reset_as(false);
    assert!(filter.filter.is_empty());
    assert!(!filter.is_whitelist);
    assert!(filter.disabled);
    filter.set_disabled(false);
    assert!(filter.should_suppress_warning(3));
    filter.update("chat".to_owned(), true);
    filter.clear();
    assert!(filter.filter.is_empty());
    assert!(!filter.is_whitelist);
}

#[test]
fn a_disabled_filter_logs_everything_and_holds_back_warnings() {
    let mut filter = PacketFilter::new();
    assert!(!filter.set_disabled(false));
    assert!(filter.set_disabled(true));
    assert!(!filter.set_disabled(true));
    assert!(filter.test("Chat {}"));
    assert!(filter.should_suppress_warning(0));
    assert!(filter.should_suppress_warning(u32::MAX));
    assert!(filter.set_disabled(false));
    assert!(!filter.test("Chat {}"));
    assert!(!filter.should_suppress_warning(0));
}

#[test]
fn switching_off_and_on_keeps_the_entries() {
    let mut filter = PacketFilter::new();
    filter.update("chat".to_owned(), false);
    filter.set_disabled(true);
    filter.update("login".to_owned(), false);
    filter.set_disabled(false);
    assert_eq!(filter.listing(), "[whitelist] chat, login");
}

#[test]
fn warnings_are_suppressed_by_id() {
    let mut filter = PacketFilter::new();
    assert!(!filter.update_warning_suppression(0x2A, false));
    assert!(filter.update_warning_suppression(0x2A, true));
    assert!(!filter.update_warning_suppression(0x2A, true));
    assert!(filter.should_suppress_warning(0x2A));
    assert!(!filter.should_suppress_warning(0x2B));
    assert!(filter.update_warning_suppression(0x2A, false));
    assert!(!filter.should_suppress_warning(0x2A));
}

#[test]
fn packets_and_warnings_are_filtered_apart() {
    let mut filter = PacketFilter::new();
    filter.update("chat".to_owned(), false);
    filter.update_warning_suppression(1, true);
    filter.update("chat".to_owned(), true);
    assert!(filter.should_suppress_warning(1));
    filter.update("chat".to_owned(), false);
    filter.update_warning_suppression(1, false);
    assert!(filter.test("Chat"));
}
