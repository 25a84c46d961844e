use url_resource::jwks::{sources_to_refresh, KeyCandidate, KeyTable};

fn key(kid: Option<&str>, usable: bool, expiration: u64) -> KeyCandidate {
    KeyCandidate { kid: kid.map(str::to_owned), usable, expiration }
}

#[test]
fn refresh_missing_and_expired_sources() {
    let expirations = vec![None, Some(10), Some(5), Some(4), None];
    assert_eq!(sources_to_refresh(&expirations, 5), vec![0, 3, 4]);
    assert_eq!(sources_to_refresh(&vec![Some(7)], 7), Vec::<usize>::new());
    assert_eq!(sources_to_refresh(&Vec::new(), 0), Vec::<usize>::new());
}

#[test]
fn first_source_wins_for_a_key_id() {
    let candidates = vec![
        key(Some("a"), true, 100),
        key(Some("b"), false, 100),
        key(None, true, 100),
        key(Some("a"), true, 200),
        key(Some("b"), true, 200),
    ];
    let table = KeyTable::build(&candidates);
    assert_eq!(table.lookup(&"a".to_owned(), 50), Some(0));
    assert_eq!(table.lookup(&"b".to_owned(), 50), Some(4));
    assert_eq!(table.lookup(&"c".to_owned(), 50), None);
}

#[test]
fn expired_key_is_not_found() {
    let table = KeyTable::build(&vec![key(Some("a"), true, 100)]);
    assert_eq!(table.lookup(&"a".to_owned(), 100), Some(0));
    assert_eq!(table.lookup(&"a".to_owned(), 101), None);
    assert_eq!(KeyTable::new().lookup(&"a".to_owned(), 0), None);
}
