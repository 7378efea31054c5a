use tonik::identifier::normalize;
use tonik::presence::{diff, holds, missing_from, Snapshot};

fn macs(list: &[&str]) -> Vec<String> {
    list.iter().map(|mac| mac.to_string()).collect()
}

fn snapshot(list: &[&str]) -> Snapshot {
    Snapshot::from_macs(&macs(list))
}

fn sorted(mut list: Vec<String>) -> Vec<String> {
    list.sort();
    list
}

#[test]
fn diff_reports_a_new_device_as_arrived() {
    let change = diff(&snapshot(&["AA:BB"]), &snapshot(&["AA:BB", "CC:DD"]));
    assert_eq!(change.arrived, macs(&["CC:DD"]));
    assert_eq!(change.departed, macs(&[]));
}

#[test]
fn diff_reports_a_missing_device_as_departed() {
    let change = diff(&snapshot(&["AA:BB", "CC:DD"]), &snapshot(&["CC:DD"]));
    assert_eq!(change.arrived, macs(&[]));
    assert_eq!(change.departed, macs(&["AA:BB"]));
}

#[test]
fn diff_of_a_snapshot_with_itself_is_empty() {
    let seen = snapshot(&["AA:BB", "CC:DD", "EE:FF"]);
    let change = diff(&seen, &seen);
    assert!(change.arrived.is_empty());
    assert!(change.departed.is_empty());
}

#[test]
fn diff_of_two_empty_snapshots_is_empty() {
    let change = diff(&Snapshot::new(), &Snapshot::new());
    assert!(change.arrived.is_empty());
    assert!(change.departed.is_empty());
}

#[test]
fn diff_from_empty_previous_reports_everything_as_arrived() {
    let change = diff(&Snapshot::new(), &snapshot(&["X", "Y"]));
    assert_eq!(sorted(change.arrived), macs(&["X", "Y"]));
    assert!(change.departed.is_empty());
}

#[test]
fn diff_to_empty_current_reports_everything_as_departed() {
    let change = diff(&snapshot(&["X", "Y"]), &Snapshot::new());
    assert!(change.arrived.is_empty());
    assert_eq!(sorted(change.departed), macs(&["X", "Y"]));
}

#[test]
fn diff_is_set_difference_both_ways() {
    let previous = snapshot(&["A", "B", "C", "D"]);
    let current = snapshot(&["C", "E", "A", "F"]);
    let change = diff(&previous, &current);
    assert_eq!(sorted(change.arrived.clone()), macs(&["E", "F"]));
    assert_eq!(sorted(change.departed.clone()), macs(&["B", "D"]));
    for mac in macs(&["A", "B", "C", "D", "E", "F"]) {
        let arrived = current.contains(&mac) && !previous.contains(&mac);
        let departed = previous.contains(&mac) && !current.contains(&mac);
        assert_eq!(change.arrived.contains(&mac), arrived);
        assert_eq!(change.departed.contains(&mac), departed);
    }
}

#[test]
fn diff_keeps_the_order_of_the_snapshots() {
    let previous = snapshot(&["GONE3", "GONE1", "BOTH", "GONE2"]);
    let current = snapshot(&["NEW2", "BOTH", "NEW1"]);
    let change = diff(&previous, &current);
    assert_eq!(change.arrived, macs(&["NEW2", "NEW1"]));
    assert_eq!(change.departed, macs(&["GONE3", "GONE1", "GONE2"]));
}

#[test]
fn diff_does_not_depend_on_listing_order() {
    let change = diff(&snapshot(&["A", "B", "C"]), &snapshot(&["C", "A", "B"]));
    assert!(change.arrived.is_empty());
    assert!(change.departed.is_empty());
}

#[test]
fn diff_twice_gives_the_same_result() {
    let previous = snapshot(&["A", "B"]);
    let current = snapshot(&["B", "C"]);
    let first = diff(&previous, &current);
    let second = diff(&previous, &current);
    assert_eq!(first.arrived, second.arrived);
    assert_eq!(first.departed, second.departed);
}

#[test]
fn diff_does_not_tell_identifiers_apart_by_case() {
    let change = diff(&snapshot(&["aa:bb", "CC:DD"]), &snapshot(&["AA:BB", "cc:dd"]));
    assert!(change.arrived.is_empty());
    assert!(change.departed.is_empty());
}

#[test]
fn diff_reports_identifiers_in_upper_case() {
    let change = diff(&snapshot(&["aa:bb"]), &snapshot(&["cc:dd", "Ee:fF"]));
    assert_eq!(change.arrived, macs(&["CC:DD", "EE:FF"]));
    assert_eq!(change.departed, macs(&["AA:BB"]));
}

#[test]
fn snapshot_holds_a_device_once_whatever_its_case() {
    let seen = snapshot(&["aa:bb", "Cc:dD", "AA:BB", "cc:dd"]);
    assert_eq!(seen.len(), 2);
    assert_eq!(seen.devices(), &macs(&["AA:BB", "CC:DD"]));
    assert!(seen.contains(&"aa:bb".to_string()));
    assert!(seen.contains(&"AA:BB".to_string()));
    assert!(seen.contains(&"cC:Dd".to_string()));
    assert!(!seen.contains(&"aa:bc".to_string()));
}

#[test]
fn normalize_writes_ascii_letters_in_upper_case() {
    assert_eq!(normalize("82:87:ee:2a:86:ae"), "82:87:EE:2A:86:AE");
    assert_eq!(normalize("82:87:EE:2A:86:AE"), "82:87:EE:2A:86:AE");
    assert_eq!(normalize("abcdefghijklmnopqrstuvwxyz"), "ABCDEFGHIJKLMNOPQRSTUVWXYZ");
    assert_eq!(normalize(""), "");
    assert_eq!(normalize("09 -_`{@["), "09 -_`{@[");
}

#[test]
fn normalize_leaves_other_letters_alone() {
    assert_eq!(normalize("\u{e9}t\u{e9}-\u{df}"), "\u{e9}T\u{e9}-\u{df}");
    assert_eq!(normalize("\u{3b1}\u{3b2}z"), "\u{3b1}\u{3b2}Z");
}

#[test]
fn normalize_twice_changes_nothing_more() {
    let once = normalize("aB:cD");
    assert_eq!(normalize(&once), once);
}

#[test]
fn snapshot_holds_each_identifier_once() {
    let seen = snapshot(&["A", "B", "A", "C", "B", "A"]);
    assert_eq!(seen.len(), 3);
    assert_eq!(seen.devices(), &macs(&["A", "B", "C"]));
    assert!(seen.contains(&"A".to_string()));
    assert!(seen.contains(&"C".to_string()));
    assert!(!seen.contains(&"D".to_string()));
}

#[test]
fn new_snapshot_is_empty() {
    let seen = Snapshot::new();
    assert!(seen.is_empty());
    assert_eq!(seen.len(), 0);
    assert!(!seen.contains(&"A".to_string()));
    assert!(!snapshot(&["A"]).is_empty());
}

#[test]
fn snapshot_clone_holds_the_same_devices() {
    let seen = snapshot(&["A", "B"]);
    let copy = seen.clone();
    assert_eq!(copy.devices(), seen.devices());
}

#[test]
fn repeated_device_arrives_once() {
    let change = diff(&Snapshot::new(), &snapshot(&["A", "A", "B", "A"]));
    assert_eq!(change.arrived, macs(&["A", "B"]));
}

#[test]
fn holds_finds_exact_matches_only() {
    let list = macs(&["AA:BB", "CC:DD"]);
    assert!(holds(&list, &"AA:BB".to_string()));
    assert!(holds(&list, &"CC:DD".to_string()));
    assert!(!holds(&list, &"AA:B".to_string()));
    assert!(!holds(&list, &"".to_string()));
    assert!(!holds(&macs(&[]), &"AA:BB".to_string()));
}

#[test]
fn missing_from_filters_in_order_and_keeps_repeats() {
    let from = macs(&["A", "B", "A", "C", "D"]);
    let other = macs(&["B", "D"]);
    assert_eq!(missing_from(&from, &other), macs(&["A", "A", "C"]));
    assert_eq!(missing_from(&other, &from), macs(&[]));
    assert_eq!(missing_from(&from, &macs(&[])), from);
}
