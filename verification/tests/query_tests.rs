use nextcloud_api::query::{encode_query, parse_query};

#[test]
fn round_trip_details_true() {
    let pairs: Vec<(Vec<u8>, Vec<u8>)> = vec![(b"details".to_vec(), b"true".to_vec())];
    let enc = encode_query(&pairs);
    assert_eq!(enc, b"details=true".to_vec());
    let back = parse_query(&enc).expect("encoded query must parse");
    assert_eq!(back, pairs);
}

#[test]
fn round_trip_preserves_order_and_values() {
    let pairs: Vec<(Vec<u8>, Vec<u8>)> = vec![
        (b"zeta".to_vec(), b"1".to_vec()),
        (b"alpha".to_vec(), b"2".to_vec()),
        (b"zeta".to_vec(), b"3".to_vec()),
    ];
    let enc = encode_query(&pairs);
    let back = parse_query(&enc).expect("encoded query must parse");
    assert_eq!(back, pairs);
}

#[test]
fn round_trip_escapes_reserved_bytes() {
    let pairs: Vec<(Vec<u8>, Vec<u8>)> = vec![
        (b"a b&c".to_vec(), b"x=y%".to_vec()),
        (b"".to_vec(), b"".to_vec()),
    ];
    let enc = encode_query(&pairs);
    // every '&', '=', '%' and space inside a component is escaped
    assert_eq!(enc, b"a%20b%26c=x%3Dy%25&=".to_vec());
    let back = parse_query(&enc).expect("encoded query must parse");
    assert_eq!(back, pairs);
}

#[test]
fn empty_list_encodes_to_empty_string() {
    let pairs: Vec<(Vec<u8>, Vec<u8>)> = vec![];
    let enc = encode_query(&pairs);
    assert_eq!(enc, Vec::<u8>::new());
    let back = parse_query(&enc).expect("empty query must parse");
    assert_eq!(back, pairs);
}

#[test]
fn parse_rejects_component_without_equals() {
    assert!(parse_query(b"details").is_none());
    assert!(parse_query(b"a=b&&c=d").is_none());
}

#[test]
fn parse_rejects_broken_escape() {
    assert!(parse_query(b"a=%2").is_none());
    assert!(parse_query(b"a=%zz").is_none());
}

#[test]
fn parse_accepts_plain_transport_form() {
    let back = parse_query(b"details=true&page=2").expect("plain query must parse");
    assert_eq!(
        back,
        vec![
            (b"details".to_vec(), b"true".to_vec()),
            (b"page".to_vec(), b"2".to_vec()),
        ]
    );
}

#[test]
fn distinct_lists_encode_distinctly() {
    let mut encodings: Vec<Vec<u8>> = Vec::new();
    for i in 0..5u8 {
        let pairs: Vec<(Vec<u8>, Vec<u8>)> =
            vec![(b"corr".to_vec(), vec![b'0' + i])];
        encodings.push(encode_query(&pairs));
    }
    for i in 0..encodings.len() {
        for j in 0..encodings.len() {
            if i != j {
                assert_ne!(encodings[i], encodings[j]);
            }
        }
    }
}
