use periscan::peripheral::{PeripheralId, PeripheralInfo, PropertyRecord};
use periscan::scan::{KeyInput, Props, ScanTab};
use periscan::action::Action;
use periscan::state::State;

fn id(s: &str) -> PeripheralId {
    PeripheralId::new(s.to_string())
}

fn info(s: &str) -> PeripheralInfo {
    PeripheralInfo::new(id(s), None)
}

fn named(s: &str, name: &str) -> PeripheralInfo {
    let props = PropertyRecord {
        address: String::new(),
        address_type: None,
        local_name: Some(name.to_string()),
        tx_power_level: None,
        rssi: None,
        manufacturer_keys: String::new(),
        services: String::new(),
        class: None,
    };
    PeripheralInfo::new(id(s), Some(props))
}

fn state_with(rows: Vec<PeripheralInfo>) -> State {
    let mut st = State::new(1).ok().unwrap();
    st.update_peripherals(Ok(rows)).ok();
    st
}

#[test]
fn current_index_defaults_to_zero_without_selection() {
    let st = state_with(vec![info("p0"), info("p1"), info("p2")]);
    let tab = ScanTab::from_state(&st);
    assert_eq!(tab.current, 0);
    assert_eq!(tab.data.len(), 3);
}

#[test]
fn current_index_resolves_matching_selection() {
    let mut st = state_with(vec![info("p0"), info("p1"), info("p2")]);
    st.select(id("p1"));
    let tab = ScanTab::from_state(&st);
    assert_eq!(tab.current, 1);
}

#[test]
fn current_index_falls_back_to_zero_on_unmatched_selection() {
    let mut st = state_with(vec![info("p0"), info("p1"), info("p2")]);
    st.select(id("not-in-list"));
    let tab = ScanTab::from_state(&st);
    assert_eq!(tab.current, 0);
    assert_eq!(st.current_peripheral_id.as_ref().unwrap().raw, "not-in-list");
}

#[test]
fn current_index_takes_first_match_of_duplicate_ids() {
    let mut st = state_with(vec![info("a"), info("b"), info("b")]);
    st.select(id("b"));
    let tab = ScanTab::from_state(&st);
    assert_eq!(tab.current, 1);
}

#[test]
fn snapshot_carries_rows_in_order() {
    let st = state_with(vec![named("1", "Alpha"), named("2", "Beta")]);
    let props = Props::from_state(&st);
    let names: Vec<&str> = props.scan.data.iter().map(|p| p.local_name.as_str()).collect();
    assert_eq!(names, vec!["Alpha", "Beta"]);
}

#[test]
fn detail_rows_render_known_fields_and_empty_for_absent() {
    let record = PropertyRecord {
        address: "AA:BB".to_string(),
        address_type: Some("Public".to_string()),
        local_name: Some("Alpha".to_string()),
        tx_power_level: None,
        rssi: Some("-40".to_string()),
        manufacturer_keys: "[76]".to_string(),
        services: "[180f]".to_string(),
        class: None,
    };
    let row = PeripheralInfo::new(id("1"), Some(record));
    assert_eq!(row.local_name, "Alpha");
    let details: Vec<(&str, &str)> = row.details.iter().map(|p| (p.0.as_str(), p.1.as_str())).collect();
    assert_eq!(
        details,
        vec![
            ("Address", "AA:BB"),
            ("Address Type", "Public"),
            ("Local Name", "Alpha"),
            ("Tx Power Level", ""),
            ("RSSI", "-40"),
            ("Manufacturer", "[76]"),
            ("Services", "[180f]"),
            ("Class", ""),
        ]
    );
}

#[test]
fn missing_property_record_degrades_to_empty_fields() {
    let row = PeripheralInfo::new(id("1"), None);
    assert_eq!(row.local_name, "");
    assert_eq!(row.details.len(), 8);
    for (_, v) in row.details.iter() {
        assert_eq!(v.as_str(), "");
    }
}

#[test]
fn display_name_falls_back_to_id() {
    let anonymous = info("aa:bb:cc");
    assert_eq!(anonymous.display_name().as_str(), "aa:bb:cc");
    let titled = named("aa:bb:cc", "Alpha");
    assert_eq!(titled.display_name().as_str(), "Alpha");
}

#[test]
fn navigation_wraps_both_ways() {
    let st = state_with(vec![info("a"), info("b"), info("c")]);
    let mut tab = ScanTab::from_state(&st);
    tab.prev();
    assert_eq!(tab.current, 2);
    tab.next();
    assert_eq!(tab.current, 0);
    tab.next();
    assert_eq!(tab.current, 1);
    tab.prev();
    assert_eq!(tab.current, 0);
}

#[test]
fn navigation_is_a_no_op_on_an_empty_list() {
    let mut tab = ScanTab::new();
    tab.prev();
    assert_eq!(tab.current, 0);
    tab.next();
    assert_eq!(tab.current, 0);
    assert!(tab.handle_event(KeyInput::Up).is_none());
    assert!(tab.handle_event(KeyInput::Down).is_none());
}

#[test]
fn keys_translate_to_actions() {
    let mut st = state_with(vec![info("a"), info("b"), info("c")]);
    st.select(id("b"));
    let props = Props::from_state(&st);
    match props.handle_event(KeyInput::Down) {
        Some(Action::Select(target)) => assert_eq!(target.raw, "c"),
        _ => panic!("expected a selection of the next row"),
    }
    match props.handle_event(KeyInput::Up) {
        Some(Action::Select(target)) => assert_eq!(target.raw, "a"),
        _ => panic!("expected a selection of the previous row"),
    }
    assert!(matches!(props.handle_event(KeyInput::Quit), Some(Action::Exit)));
    assert!(props.handle_event(KeyInput::Other).is_none());
}
