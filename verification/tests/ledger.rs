use archivanima::error::Error;
use archivanima::ledger::{
    add_upload, check_post_author, count_old_in_progress_uploads, get_upload,
    list_old_in_progress_uploads_and_set_hiding, set_uploads_hidden, try_set_upload_status,
    try_set_upload_status_check_exists, Ledger, NewUpload, Upload, UploadFull,
};
use archivanima::pagination::PageParams;
use archivanima::status::UploadStatus;
use archivanima::storage::UploadStorage;
use archivanima::user::User;

fn user(name: &str) -> User {
    User {
        username: name.to_string(),
        is_active: true,
        is_admin: true,
        is_uploader: true,
        birth_date: None,
    }
}

fn ledger_with_uploads(count: i64) -> Ledger {
    let mut ledger = Ledger::new();
    assert_eq!(ledger.add_post("admin1"), Some(1));
    for index in 0..count {
        let upload = NewUpload { extension: Some("txt"), size: 10, post_id: 1 };
        let created = add_upload(upload, user("admin1"), &mut ledger, 100 + index).unwrap();
        assert_eq!(created.id, index + 1);
    }
    ledger
}

fn status_of(ledger: &Ledger, id: i64) -> UploadStatus {
    get_upload(id, ledger).unwrap().file_status
}

fn force(ledger: &mut Ledger, id: i64, path: &[UploadStatus]) {
    for status in path {
        assert_eq!(try_set_upload_status(id, *status, ledger), Ok(Some(())));
    }
}

#[test]
fn create_inserts_an_initialized_record() {
    let mut ledger = Ledger::new();
    assert_eq!(ledger.add_post("admin1"), Some(1));
    let upload = NewUpload { extension: Some("txt"), size: 51, post_id: 1 };
    let created = add_upload(upload, user("admin1"), &mut ledger, 1234);
    assert_eq!(
        created,
        Ok(Upload {
            id: 1,
            extension: Some("txt".to_string()),
            size: 51,
            creation_date: 1234,
            file_status: UploadStatus::Initialized,
        })
    );
    assert_eq!(ledger.upload_count(), 1);
    assert_eq!(
        get_upload(1, &ledger),
        Ok(UploadFull {
            id: 1,
            extension: Some("txt".to_string()),
            size: 51,
            creation_date: 1234,
            file_status: UploadStatus::Initialized,
            post_id: 1,
            post_author_username: "admin1".to_string(),
        })
    );
}

#[test]
fn create_for_an_unknown_post_does_not_exist() {
    let mut ledger = Ledger::new();
    ledger.add_post("admin1");
    for post_id in [0, 2, -1, i64::MAX, i64::MIN] {
        let upload = NewUpload { extension: None, size: 1, post_id };
        assert_eq!(add_upload(upload, user("admin1"), &mut ledger, 0), Err(Error::DoesNotExist));
    }
    assert_eq!(ledger.upload_count(), 0);
}

#[test]
fn create_by_another_user_is_denied() {
    let mut ledger = Ledger::new();
    ledger.add_post("admin1");
    let upload = NewUpload { extension: None, size: 1, post_id: 1 };
    assert_eq!(add_upload(upload, user("admin2"), &mut ledger, 0), Err(Error::AccessDenied));
    assert_eq!(ledger.upload_count(), 0);
}

#[test]
fn ids_count_up_from_one() {
    let mut ledger = Ledger::new();
    assert_eq!(ledger.add_post("a"), Some(1));
    assert_eq!(ledger.add_post("b"), Some(2));
    let first = add_upload(NewUpload { extension: None, size: 1, post_id: 2 }, user("b"), &mut ledger, 0)
        .unwrap();
    let second =
        add_upload(NewUpload { extension: None, size: 2, post_id: 1 }, user("a"), &mut ledger, 0)
            .unwrap();
    assert_eq!((first.id, second.id), (1, 2));
    assert_eq!(get_upload(2, &ledger).unwrap().post_author_username, "a");
    assert_eq!(get_upload(1, &ledger).unwrap().post_author_username, "b");
}

#[test]
fn get_of_an_unknown_upload_does_not_exist() {
    let ledger = ledger_with_uploads(2);
    for id in [0, 3, -1, i64::MAX, i64::MIN] {
        assert_eq!(get_upload(id, &ledger), Err(Error::DoesNotExist));
    }
}

#[test]
fn allowed_move_is_made() {
    let mut ledger = ledger_with_uploads(1);
    assert_eq!(try_set_upload_status(1, UploadStatus::Allocated, &mut ledger), Ok(Some(())));
    assert_eq!(status_of(&ledger, 1), UploadStatus::Allocated);
}

#[test]
fn refused_move_changes_nothing_and_is_no_error() {
    let mut ledger = ledger_with_uploads(1);
    assert_eq!(try_set_upload_status(1, UploadStatus::Published, &mut ledger), Ok(None));
    assert_eq!(try_set_upload_status(1, UploadStatus::Initialized, &mut ledger), Ok(None));
    assert_eq!(status_of(&ledger, 1), UploadStatus::Initialized);
}

#[test]
fn move_of_an_unknown_upload_is_a_persistence_error() {
    let mut ledger = ledger_with_uploads(1);
    let result = try_set_upload_status(2, UploadStatus::Missing, &mut ledger);
    assert!(matches!(result, Err(Error::Sqlx(_))));
    assert_eq!(status_of(&ledger, 1), UploadStatus::Initialized);
}

#[test]
fn checked_move_returns_the_record_as_it_was() {
    let mut ledger = ledger_with_uploads(1);
    let before = get_upload(1, &ledger).unwrap();
    let result = try_set_upload_status_check_exists(1, UploadStatus::Allocated, &mut ledger);
    assert_eq!(result, Ok(Some(before)));
    assert_eq!(status_of(&ledger, 1), UploadStatus::Allocated);
}

#[test]
fn checked_move_is_refused_or_does_not_exist() {
    let mut ledger = ledger_with_uploads(1);
    assert_eq!(
        try_set_upload_status_check_exists(1, UploadStatus::Writing, &mut ledger),
        Ok(None)
    );
    assert_eq!(
        try_set_upload_status_check_exists(7, UploadStatus::Writing, &mut ledger),
        Err(Error::DoesNotExist)
    );
    assert_eq!(status_of(&ledger, 1), UploadStatus::Initialized);
}

#[test]
fn of_two_claims_one_succeeds() {
    let mut ledger = ledger_with_uploads(1);
    force(&mut ledger, 1, &[UploadStatus::Allocated]);
    let first = try_set_upload_status_check_exists(1, UploadStatus::Publishing, &mut ledger);
    let second = try_set_upload_status_check_exists(1, UploadStatus::Publishing, &mut ledger);
    assert!(matches!(first, Ok(Some(_))));
    assert_eq!(second, Ok(None));
    assert_eq!(status_of(&ledger, 1), UploadStatus::Publishing);
}

#[test]
fn every_upload_can_go_missing() {
    let mut ledger = ledger_with_uploads(1);
    force(&mut ledger, 1, &[UploadStatus::Allocated, UploadStatus::Publishing]);
    assert_eq!(try_set_upload_status(1, UploadStatus::Missing, &mut ledger), Ok(Some(())));
    assert_eq!(try_set_upload_status(1, UploadStatus::Allocated, &mut ledger), Ok(None));
    assert_eq!(try_set_upload_status(1, UploadStatus::Missing, &mut ledger), Ok(Some(())));
}

#[test]
fn file_url_of_an_upload() {
    let ledger = ledger_with_uploads(1);
    let storage = UploadStorage::FileSystem {
        private_path: "data".to_string(),
        public_path: "datapublic".to_string(),
        base_url: "/media/".to_string(),
    };
    let upload = get_upload(1, &ledger).unwrap().to_upload();
    assert_eq!(upload.file_url(&storage), "/media/0000000000000001.txt");
}

#[test]
fn candidates_are_old_unfinished_or_half_hidden_uploads() {
    // Created at 100 ..= 105; at the moment 110 with max_age 7, uploads 1
    // and 2 (ages 10 and 9) are older than max_age, upload 3 (age 8) too.
    let mut ledger = ledger_with_uploads(6);
    force(&mut ledger, 2, &[UploadStatus::Allocated, UploadStatus::Writing]);
    force(
        &mut ledger,
        3,
        &[UploadStatus::Allocated, UploadStatus::Publishing, UploadStatus::Published],
    );
    // Upload 6 is young (age 5) but was left in Hiding.
    force(
        &mut ledger,
        6,
        &[
            UploadStatus::Allocated,
            UploadStatus::Publishing,
            UploadStatus::Published,
            UploadStatus::Hiding,
        ],
    );
    assert_eq!(count_old_in_progress_uploads(&ledger, 7, 110), 3);
    let page = list_old_in_progress_uploads_and_set_hiding(
        &mut ledger,
        PageParams { page_id: Some(0), page_size: 10 },
        7,
        110,
    )
    .unwrap();
    let ids: Vec<i64> = page.items.iter().map(|upload| upload.id).collect();
    assert_eq!(ids, vec![1, 2, 6]);
    assert!(page.items.iter().all(|upload| upload.file_status == UploadStatus::Hiding));
    assert_eq!((page.page_id, page.page_size, page.page_count, page.total_item_count), (0, 10, 1, 3));
    assert_eq!(status_of(&ledger, 1), UploadStatus::Hiding);
    assert_eq!(status_of(&ledger, 2), UploadStatus::Hiding);
    assert_eq!(status_of(&ledger, 3), UploadStatus::Published);
    assert_eq!(status_of(&ledger, 4), UploadStatus::Initialized);
    assert_eq!(status_of(&ledger, 5), UploadStatus::Initialized);
    assert_eq!(status_of(&ledger, 6), UploadStatus::Hiding);
}

#[test]
fn age_must_exceed_max_age() {
    let mut ledger = ledger_with_uploads(1);
    assert_eq!(count_old_in_progress_uploads(&ledger, 10, 110), 0);
    assert_eq!(count_old_in_progress_uploads(&ledger, 9, 110), 1);
    assert_eq!(count_old_in_progress_uploads(&ledger, 0, 100), 0);
    assert_eq!(count_old_in_progress_uploads(&ledger, 0, 101), 1);
    assert_eq!(count_old_in_progress_uploads(&ledger, u64::MAX, i64::MAX), 0);
    assert_eq!(count_old_in_progress_uploads(&ledger, 0, i64::MIN), 0);
    force(&mut ledger, 1, &[UploadStatus::Missing]);
    assert_eq!(count_old_in_progress_uploads(&ledger, 0, 101), 0);
}

#[test]
fn claim_takes_one_page_in_id_order() {
    let mut ledger = ledger_with_uploads(5);
    let page = list_old_in_progress_uploads_and_set_hiding(
        &mut ledger,
        PageParams { page_id: Some(1), page_size: 2 },
        0,
        1000,
    )
    .unwrap();
    let ids: Vec<i64> = page.items.iter().map(|upload| upload.id).collect();
    assert_eq!(ids, vec![3, 4]);
    assert_eq!((page.page_id, page.page_count, page.total_item_count), (1, 3, 5));
    for (id, expected) in [
        (1, UploadStatus::Initialized),
        (2, UploadStatus::Initialized),
        (3, UploadStatus::Hiding),
        (4, UploadStatus::Hiding),
        (5, UploadStatus::Initialized),
    ] {
        assert_eq!(status_of(&ledger, id), expected);
    }
}

#[test]
fn claim_without_page_id_takes_the_last_page() {
    let mut ledger = ledger_with_uploads(5);
    let page = list_old_in_progress_uploads_and_set_hiding(
        &mut ledger,
        PageParams { page_id: None, page_size: 2 },
        0,
        1000,
    )
    .unwrap();
    let ids: Vec<i64> = page.items.iter().map(|upload| upload.id).collect();
    assert_eq!(ids, vec![5]);
    assert_eq!(page.page_id, 2);
}

#[test]
fn claim_of_a_page_that_is_not_there_changes_nothing() {
    let mut ledger = ledger_with_uploads(2);
    let result = list_old_in_progress_uploads_and_set_hiding(
        &mut ledger,
        PageParams { page_id: Some(1), page_size: 2 },
        0,
        1000,
    );
    assert_eq!(result, Err(Error::PageDoesNotExist));
    let result = list_old_in_progress_uploads_and_set_hiding(
        &mut ledger,
        PageParams { page_id: Some(0), page_size: 0 },
        0,
        1000,
    );
    assert_eq!(result, Err(Error::InvalidPagination));
    assert_eq!(status_of(&ledger, 1), UploadStatus::Initialized);
    assert_eq!(status_of(&ledger, 2), UploadStatus::Initialized);
}

#[test]
fn claim_on_a_ledger_without_candidates_finds_no_page() {
    let mut ledger = ledger_with_uploads(2);
    let result = list_old_in_progress_uploads_and_set_hiding(
        &mut ledger,
        PageParams { page_id: Some(0), page_size: 2 },
        1000,
        0,
    );
    assert_eq!(result, Err(Error::PageDoesNotExist));
}

#[test]
fn hiding_marks_only_claimed_uploads() {
    let mut ledger = ledger_with_uploads(3);
    force(&mut ledger, 1, &[UploadStatus::Allocated]);
    force(
        &mut ledger,
        2,
        &[
            UploadStatus::Allocated,
            UploadStatus::Publishing,
            UploadStatus::Published,
            UploadStatus::Hiding,
        ],
    );
    assert_eq!(set_uploads_hidden(&mut ledger, vec![1, 2, 9, -4, 2]), Ok(()));
    assert_eq!(status_of(&ledger, 1), UploadStatus::Allocated);
    assert_eq!(status_of(&ledger, 2), UploadStatus::Hidden);
    assert_eq!(status_of(&ledger, 3), UploadStatus::Initialized);
    assert_eq!(set_uploads_hidden(&mut ledger, vec![]), Ok(()));
    assert_eq!(status_of(&ledger, 2), UploadStatus::Hidden);
}

#[test]
fn only_the_author_of_a_post_may_add_uploads() {
    assert_eq!(check_post_author(Some("admin1"), &user("admin1")), Ok(()));
    assert_eq!(check_post_author(Some("admin1"), &user("admin2")), Err(Error::AccessDenied));
    assert_eq!(check_post_author(Some(""), &user("admin1")), Err(Error::AccessDenied));
    assert_eq!(check_post_author(None, &user("admin1")), Err(Error::DoesNotExist));
}
