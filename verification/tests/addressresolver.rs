use wasmut::addressresolver::{file_names, function_names, AddressResolver, CodeLocation};

#[test]
fn resolver_rejects_bytes_that_are_no_module() {
    assert!(AddressResolver::new(b"not a module").is_none());
    assert!(AddressResolver::new(&[]).is_none());
}

#[test]
fn resolver_without_debug_information_knows_nothing() {
    // A module with one custom section and nothing else.
    let bytes = [0x00u8, 0x61, 0x73, 0x6d, 0x01, 0x00, 0x00, 0x00, 0x00, 0x08, 0x04, b'n', b'o', b'p', b'e', 1, 2, 3];
    let resolver = AddressResolver::new(&bytes).unwrap();
    assert_eq!(resolver.lookup_address(0), Some(CodeLocation::default()));
    assert_eq!(resolver.lookup_address(1234), Some(CodeLocation::default()));
}

#[test]
fn every_address_gets_a_location() {
    let bytes = [0x00u8, 0x61, 0x73, 0x6d, 0x01, 0x00, 0x00, 0x00, 0x00, 0x08, 0x04, b'n', b'o', b'p', b'e', 1, 2, 3];
    let resolver = AddressResolver::new(&bytes).unwrap();
    let places = resolver.locate_all(&vec![vec![0, 5], vec![], vec![9]]);
    assert_eq!(places.len(), 3);
    assert_eq!(places[0], vec![CodeLocation::default(), CodeLocation::default()]);
    assert!(places[1].is_empty());
    assert_eq!(places[2], vec![CodeLocation::default()]);
}

fn at(file: Option<&str>, function: Option<&str>) -> CodeLocation {
    CodeLocation { file: file.map(String::from), function: function.map(String::from), line: Some(1), column: None }
}

#[test]
fn names_are_listed_once() {
    let places = vec![
        vec![at(Some("a.c"), Some("add")), at(Some("a.c"), Some("sub")), at(None, None)],
        vec![],
        vec![at(Some("b.c"), Some("add")), at(Some("a.c"), None)],
    ];
    assert_eq!(function_names(&places), vec!["add".to_string(), "sub".to_string()]);
    assert_eq!(file_names(&places), vec!["a.c".to_string(), "b.c".to_string()]);
    assert!(function_names(&vec![]).is_empty());
}
