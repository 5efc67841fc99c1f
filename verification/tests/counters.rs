use corrosion::{get_id, get_timestamp, IdSource, TimestampSource};

#[test]
fn id_it_gives_unique_numbers() {
    let mut ids = IdSource { next_id: 0 };

    let a = get_id(&mut ids);
    let b = get_id(&mut ids);

    assert!(a != b);
}

#[test]
fn timestamp_it_gives_unique_numbers() {
    let mut timestamps = TimestampSource { next_timestamp: 0 };

    let a = get_timestamp(&mut timestamps);
    let b = get_timestamp(&mut timestamps);

    assert!(a != b);
}

#[test]
fn ids_are_monotonic() {
    let mut ids = IdSource { next_id: 7 };

    assert_eq!(get_id(&mut ids), 7);
    assert_eq!(get_id(&mut ids), 8);
    assert_eq!(get_id(&mut ids), 9);
    assert_eq!(ids.next_id, 10);
}

#[test]
fn independent_sources_do_not_interfere() {
    let mut a = IdSource { next_id: 0 };
    let mut b = IdSource { next_id: 0 };

    let x = get_id(&mut a);
    let y = get_id(&mut b);

    assert_eq!(x, y);
    assert_eq!(a.next_id, 1);
    assert_eq!(b.next_id, 1);
}
