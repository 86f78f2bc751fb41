use printrs::cli::get_sorted_printers;
use printrs::dest::{CupsDestination, CupsDestinationInfo, CupsDestinations};
use printrs::printer::OptionMap;
use printrs::{get_printers, Printer};

fn printer(name: &str, is_default: bool) -> Printer {
    Printer { name: name.to_string(), instance: None, is_default, options: OptionMap::new() }
}

fn names(printers: &[Printer]) -> Vec<&str> {
    printers.iter().map(|p| p.name.as_str()).collect()
}

#[test]
fn get_option_finds_set_options() {
    let mut p = printer("laser", false);
    p.options.insert("printer-location".to_string(), "hall".to_string());
    assert_eq!(p.get_option("printer-location").map(|s| s.as_str()), Some("hall"));
    assert!(p.get_option("printer-info").is_none());
    assert!(p.get_option("").is_none());
}

#[test]
fn later_option_values_replace_earlier_ones() {
    let map = OptionMap::from_pairs(vec![
        ("a".to_string(), "1".to_string()),
        ("b".to_string(), "2".to_string()),
        ("a".to_string(), "3".to_string()),
    ]);
    assert_eq!(map.get("a").map(|s| s.as_str()), Some("3"));
    assert_eq!(map.get("b").map(|s| s.as_str()), Some("2"));
    assert!(map.get("c").is_none());
}

#[test]
fn human_name_is_printer_info_or_name() {
    let mut p = printer("hp_laserjet", false);
    assert_eq!(p.get_human_name(), "hp_laserjet");
    p.options.insert("printer-info".to_string(), "HP LaserJet (hall)".to_string());
    assert_eq!(p.get_human_name(), "HP LaserJet (hall)");
}

#[test]
fn printers_describe_destinations() {
    let dests = CupsDestinations::new(vec![
        CupsDestination::new(
            "office".to_string(),
            Some("duplex".to_string()),
            1,
            vec![
                ("printer-info".to_string(), "Office printer".to_string()),
                ("printer-info".to_string(), "Office".to_string()),
            ],
            CupsDestinationInfo { handle: 0 },
        ),
        CupsDestination::new("lab".to_string(), None, 0, vec![], CupsDestinationInfo { handle: 1 }),
    ]);
    let printers = get_printers(&dests);
    assert_eq!(printers.len(), 2);
    assert_eq!(printers[0].name, "office");
    assert_eq!(printers[0].instance.as_deref(), Some("duplex"));
    assert!(printers[0].is_default);
    assert_eq!(printers[0].get_human_name(), "Office");
    assert_eq!(printers[1].name, "lab");
    assert!(printers[1].instance.is_none());
    assert!(!printers[1].is_default);
    assert_eq!(printers[1].get_human_name(), "lab");
}

#[test]
fn no_destinations_no_printers() {
    assert!(get_printers(&CupsDestinations::new(vec![])).is_empty());
}

#[test]
fn default_printer_is_listed_first_then_by_name() {
    let sorted = get_sorted_printers(vec![
        printer("zebra", false),
        printer("alpha", false),
        printer("main", true),
        printer("beta", false),
    ]);
    assert_eq!(names(&sorted), vec!["main", "alpha", "beta", "zebra"]);
}

#[test]
fn names_are_ordered_by_code_point() {
    let sorted = get_sorted_printers(vec![
        printer("b", false),
        printer("B", false),
        printer("ab", false),
        printer("a", false),
        printer("é", false),
        printer("", false),
    ]);
    assert_eq!(names(&sorted), vec!["", "B", "a", "ab", "b", "é"]);
}

#[test]
fn tied_printers_keep_their_order() {
    let mut first = printer("same", false);
    first.instance = Some("first".to_string());
    let mut second = printer("same", false);
    second.instance = Some("second".to_string());
    let sorted = get_sorted_printers(vec![first, printer("aaa", false), second]);
    assert_eq!(names(&sorted), vec!["aaa", "same", "same"]);
    assert_eq!(sorted[1].instance.as_deref(), Some("first"));
    assert_eq!(sorted[2].instance.as_deref(), Some("second"));
}

#[test]
fn sorting_nothing_gives_nothing() {
    assert!(get_sorted_printers(vec![]).is_empty());
}
