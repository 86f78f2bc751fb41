use printrs::dest::{CupsDestination, CupsDestinationInfo, CupsDestinations, FatPointerLayout};

fn destination(name: &str, is_default: i32, handle: usize) -> CupsDestination {
    CupsDestination::new(
        name.to_string(),
        None,
        is_default,
        vec![],
        CupsDestinationInfo { handle },
    )
}

#[test]
fn if_no_destinations_then_get_always_none() {
    // This CUPS dests array is empty:
    let cups_destinations = CupsDestinations::new(vec![]);
    // Any call to .get() should return None:
    assert!(cups_destinations.get(0).is_none());
    assert!(cups_destinations.get(1).is_none());
    assert!(cups_destinations.get(usize::MAX).is_none());
}

#[test]
fn get_returns_the_destination_at_the_index() {
    let dests = CupsDestinations::new(vec![destination("a", 0, 7), destination("b", 1, 9)]);
    assert_eq!(dests.len(), 2);
    assert_eq!(dests.get(0).unwrap().name, "a");
    assert_eq!(dests.get(1).unwrap().name, "b");
    assert!(dests.get(2).is_none());
}

#[test]
fn get_info_returns_the_copied_information() {
    let mut dest = destination("office", 0, 5);
    assert_eq!(*dest.get_info(), CupsDestinationInfo { handle: 5 });
    dest.get_info().handle = 6;
    assert_eq!(dest.info, CupsDestinationInfo { handle: 6 });
    assert_eq!(dest.name, "office");
}

#[test]
fn fat_pointer_bounds() {
    let empty = FatPointerLayout { size: 0, ptr_is_null: false };
    assert!(empty.is_null());
    assert_eq!(empty.get_at(0), None);
    let null = FatPointerLayout { size: 3, ptr_is_null: true };
    assert!(null.is_null());
    assert_eq!(null.get_at(0), None);
    let three = FatPointerLayout { size: 3, ptr_is_null: false };
    assert!(!three.is_null());
    assert_eq!(three.get_at(0), Some(0));
    assert_eq!(three.get_at(2), Some(2));
    assert_eq!(three.get_at(3), None);
    assert_eq!(three.get_at(usize::MAX), None);
}
