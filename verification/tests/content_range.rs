use archivanima::content_range::{ContentRange, HeaderRange};

#[test]
fn bounded_header_is_parsed() {
    assert_eq!(
        ContentRange::parse("bytes 0-50/51"),
        Some(ContentRange::Bytes { first_byte: 0, last_byte: 50, complete_length: 51 })
    );
    assert_eq!(
        ContentRange::parse("bytes 42-69/420"),
        Some(ContentRange::Bytes { first_byte: 42, last_byte: 69, complete_length: 420 })
    );
}

#[test]
fn unbounded_header_is_parsed() {
    assert_eq!(
        ContentRange::parse("bytes 42-69/*"),
        Some(ContentRange::Unbound { first_byte: 42, last_byte: 69 })
    );
}

#[test]
fn unsatisfied_and_malformed_headers_are_refused() {
    assert_eq!(ContentRange::parse("bytes */420"), None);
    assert_eq!(ContentRange::parse(""), None);
    assert_eq!(ContentRange::parse("bytes 5-2/10"), None);
    assert_eq!(ContentRange::parse("bytes 1-20/20"), None);
    assert_eq!(ContentRange::parse("items 1-2/3"), None);
    assert_eq!(ContentRange::parse("0-9/20"), None);
}

#[test]
fn a_request_without_the_header_has_no_range() {
    assert_eq!(ContentRange::from_header(None), None);
    assert_eq!(
        ContentRange::from_header(Some("bytes 0-9/20")),
        Some(ContentRange::Bytes { first_byte: 0, last_byte: 9, complete_length: 20 })
    );
    assert_eq!(ContentRange::from_header(Some("bytes */20")), None);
}

#[test]
fn parsed_headers_become_ranges() {
    assert_eq!(
        ContentRange::from_parsed(Some(HeaderRange::Bytes {
            first_byte: 1,
            last_byte: 2,
            complete_length: 3
        })),
        Some(ContentRange::Bytes { first_byte: 1, last_byte: 2, complete_length: 3 })
    );
    assert_eq!(
        ContentRange::from_parsed(Some(HeaderRange::UnboundBytes { first_byte: 1, last_byte: 2 })),
        Some(ContentRange::Unbound { first_byte: 1, last_byte: 2 })
    );
    assert_eq!(
        ContentRange::from_parsed(Some(HeaderRange::Unsatisfied { complete_length: 3 })),
        None
    );
    assert_eq!(ContentRange::from_parsed(None), None);
}

#[test]
fn length_counts_both_ends() {
    let range = ContentRange::Bytes { first_byte: 0, last_byte: 50, complete_length: 51 };
    assert_eq!(range.first_byte(), 0);
    assert_eq!(range.last_byte(), 50);
    assert_eq!(range.complete_length(), Some(51));
    assert_eq!(range.length(), Some(51));
    let range = ContentRange::Unbound { first_byte: 10, last_byte: 10 };
    assert_eq!(range.complete_length(), None);
    assert_eq!(range.length(), Some(1));
}

#[test]
fn length_of_a_malformed_range_is_none() {
    assert_eq!(ContentRange::Unbound { first_byte: 5, last_byte: 4 }.length(), None);
    assert_eq!(ContentRange::Unbound { first_byte: 0, last_byte: u64::MAX }.length(), None);
    assert_eq!(
        ContentRange::Unbound { first_byte: 1, last_byte: u64::MAX }.length(),
        Some(u64::MAX)
    );
}
