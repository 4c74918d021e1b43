use archivanima::error::Error;
use archivanima::page_stream::iterate_pages;
use archivanima::pagination::{Page, PageParams};

fn page(page_id: u64, page_count: u64) -> Page<u32> {
    Page { items: vec![page_id as u32], page_id, page_size: 2, page_count, total_item_count: 0 }
}

#[test]
fn walk_starts_at_page_zero() {
    let stream = iterate_pages(2);
    assert!(!stream.finished());
    assert_eq!(stream.next_params(), Some(PageParams { page_id: Some(0), page_size: 2 }));
}

#[test]
fn walk_visits_every_page_and_stops() {
    let mut stream = iterate_pages(2);
    let mut seen = vec![];
    while let Some(params) = stream.next_params() {
        let page_id = params.page_id.unwrap();
        match stream.advance(Ok(page(page_id, 3))) {
            Some(Ok(page)) => seen.push(page.page_id),
            other => panic!("{:?}", other),
        }
    }
    assert_eq!(seen, vec![0, 1, 2]);
    assert!(stream.finished());
    assert_eq!(stream.next_params(), None);
}

#[test]
fn walk_follows_the_latest_page_count() {
    let mut stream = iterate_pages(2);
    assert!(matches!(stream.advance(Ok(page(0, 5))), Some(Ok(_))));
    assert_eq!(stream.next_params(), Some(PageParams { page_id: Some(1), page_size: 2 }));
    // The listing shrank: page 1 is now the last one.
    assert!(matches!(stream.advance(Ok(page(1, 2))), Some(Ok(_))));
    assert!(stream.finished());
}

#[test]
fn a_single_page_ends_the_walk() {
    let mut stream = iterate_pages(2);
    assert_eq!(stream.advance(Ok(page(0, 1))), Some(Ok(page(0, 1))));
    assert!(stream.finished());
    let mut stream = iterate_pages(2);
    assert_eq!(stream.advance(Ok(page(0, 0))), Some(Ok(page(0, 0))));
    assert!(stream.finished());
}

#[test]
fn a_page_that_does_not_exist_ends_the_walk_cleanly() {
    let mut stream = iterate_pages(2);
    assert!(matches!(stream.advance(Ok(page(0, 4))), Some(Ok(_))));
    assert_eq!(stream.advance::<u32>(Err(Error::PageDoesNotExist)), None);
    assert!(stream.finished());
    assert_eq!(stream.next_params(), None);
}

#[test]
fn any_other_error_is_yielded_and_ends_the_walk() {
    let mut stream = iterate_pages(2);
    assert_eq!(
        stream.advance::<u32>(Err(Error::Sqlx("connection lost".to_string()))),
        Some(Err(Error::Sqlx("connection lost".to_string())))
    );
    assert!(stream.finished());
    let mut stream = iterate_pages(0);
    assert_eq!(
        stream.advance::<u32>(Err(Error::InvalidPagination)),
        Some(Err(Error::InvalidPagination))
    );
    assert!(stream.finished());
}

#[test]
fn a_finished_walk_cannot_be_restarted() {
    let mut stream = iterate_pages(2);
    assert!(matches!(stream.advance(Ok(page(0, 1))), Some(Ok(_))));
    assert_eq!(stream.advance(Ok(page(0, 9))), None);
    assert!(stream.finished());
    assert_eq!(stream.next_params(), None);
}
