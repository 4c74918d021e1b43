use std::cell::RefCell;
use std::collections::HashMap;

use archivanima::content_range::ContentRange;
use archivanima::error::{Error, ValidationErrors};
use archivanima::ledger::{get_upload, try_set_upload_status, Ledger, Upload, UploadFull};
use archivanima::status::UploadStatus;
use archivanima::storage::{StorageRequest, UploadStorage};
use archivanima::sweeper::run_cleanup_storage_with_pool;
use archivanima::upload::{
    answer_from_ledger, is_valid_extension, upload_add_post, upload_finalize_post,
    upload_hide_post, upload_upload_by_chunk_put, FlowAction, FlowEvent, FlowKind, FlowOutput,
    UploadAddRequest, UploadAddResponseOk, UploadByChunkResponseOk, UploadConfig, UploadFlow,
};
use archivanima::user::User;

const CONTENT: &[u8] = b"THIS IS TEST FILE!\nTHANK YOU FOR YOUR ATTENTION.\n\n\n";
const SHORT_CONTENT: &[u8] = b"THIS IS TEST FILE!\nTHANK YOU FOR YOUR ATTENTION.\n";

fn config() -> UploadConfig {
    UploadConfig {
        max_file_size: 1024,
        storage: UploadStorage::FileSystem {
            private_path: "data".to_string(),
            public_path: "datapublic".to_string(),
            base_url: "/media/".to_string(),
        },
        max_upload_time: 500,
    }
}

fn user(name: &str) -> User {
    User {
        username: name.to_string(),
        is_active: true,
        is_admin: true,
        is_uploader: true,
        birth_date: None,
    }
}

fn no_errors() -> ValidationErrors {
    ValidationErrors {
        size_is_zero: false,
        size_too_large: false,
        extension_too_long: false,
        extension_invalid_chars: false,
        title_is_blank: false,
        title_too_long: false,
        min_age_out_of_range: false,
    }
}

/// Files kept in memory, to stand for the storage backend.
struct Files {
    private: RefCell<HashMap<String, Vec<u8>>>,
    public: RefCell<HashMap<String, Vec<u8>>>,
    asked: RefCell<Vec<StorageRequest>>,
}

impl Files {
    fn new() -> Files {
        Files {
            private: RefCell::new(HashMap::new()),
            public: RefCell::new(HashMap::new()),
            asked: RefCell::new(Vec::new()),
        }
    }

    fn perform(&self, request: &StorageRequest, body: &[u8]) -> Result<(), Error> {
        let name = request.file_name();
        let missing = || Error::IO(format!("{} not found", name));
        let result = match request {
            StorageRequest::Allocate { size, .. } => {
                self.private.borrow_mut().insert(name.clone(), vec![0; *size as usize]);
                Ok(())
            }
            StorageRequest::Write { start_pos, length, .. } => {
                let mut private = self.private.borrow_mut();
                let file = private.get_mut(&name).ok_or_else(missing)?;
                let start = *start_pos as usize;
                let count = std::cmp::min(*length as usize, body.len());
                if file.len() < start + count {
                    file.resize(start + count, 0);
                }
                file[start..start + count].copy_from_slice(&body[..count]);
                Ok(())
            }
            StorageRequest::Publish { .. } => {
                let copy = self.private.borrow().get(&name).cloned().ok_or_else(missing)?;
                self.public.borrow_mut().insert(name.clone(), copy);
                Ok(())
            }
            StorageRequest::Unpublish { .. } => {
                self.public.borrow_mut().remove(&name);
                self.private.borrow_mut().remove(&name);
                Ok(())
            }
        };
        let copy = match request {
            StorageRequest::Allocate { id, extension, size } => {
                StorageRequest::Allocate { id: *id, extension: extension.clone(), size: *size }
            }
            StorageRequest::Write { id, extension, start_pos, length } => StorageRequest::Write {
                id: *id,
                extension: extension.clone(),
                start_pos: *start_pos,
                length: *length,
            },
            StorageRequest::Publish { id, extension } => {
                StorageRequest::Publish { id: *id, extension: extension.clone() }
            }
            StorageRequest::Unpublish { id, extension } => {
                StorageRequest::Unpublish { id: *id, extension: extension.clone() }
            }
        };
        self.asked.borrow_mut().push(copy);
        result
    }
}

fn failing(_request: &StorageRequest) -> Result<(), Error> {
    Err(Error::IO("disk full".to_string()))
}

fn untouched(_request: &StorageRequest) -> Result<(), Error> {
    panic!("the storage must not be asked")
}

fn ledger_with_post() -> Ledger {
    let mut ledger = Ledger::new();
    assert_eq!(ledger.add_post("admin1"), Some(1));
    ledger
}

fn create(ledger: &mut Ledger, files: &Files, size: u64, extension: Option<&str>) -> i64 {
    let request = UploadAddRequest { size, extension, post_id: 1 };
    let response = upload_add_post(
        request,
        ledger,
        &user("admin1"),
        &config(),
        |request: &StorageRequest| files.perform(request, &[]),
        77,
    );
    response.unwrap().id
}

fn status_of(ledger: &Ledger, id: i64) -> UploadStatus {
    get_upload(id, ledger).unwrap().file_status
}

#[test]
fn extensions_are_letters_digits_and_underscores() {
    for valid in ["txt", "TXT", "tar_gz", "7z", "_", "a1_B2", "mp4"] {
        assert!(is_valid_extension(valid), "{}", valid);
    }
    for invalid in ["", ".", "tar.gz", "a b", "a-b", "é", "txt\n", "a/b", "日本", "x@", "`", "{", "["] {
        assert!(!is_valid_extension(invalid), "{}", invalid);
    }
}

#[test]
fn a_valid_request_has_no_errors() {
    let request = UploadAddRequest { size: 51, extension: Some("txt"), post_id: 1 };
    assert_eq!(request.validate(&config()), no_errors());
    assert!(request.validate(&config()).is_empty());
    let request = UploadAddRequest { size: 1024, extension: None, post_id: 1 };
    assert_eq!(request.validate(&config()), no_errors());
    let long = "a".repeat(32);
    let request = UploadAddRequest { size: 1, extension: Some(&long), post_id: 1 };
    assert_eq!(request.validate(&config()), no_errors());
}

#[test]
fn each_fault_of_a_request_is_named() {
    let request = UploadAddRequest { size: 0, extension: None, post_id: 1 };
    assert_eq!(request.validate(&config()), ValidationErrors { size_is_zero: true, ..no_errors() });
    let request = UploadAddRequest { size: 1025, extension: None, post_id: 1 };
    assert_eq!(request.validate(&config()), ValidationErrors { size_too_large: true, ..no_errors() });
    let long = "a".repeat(33);
    let request = UploadAddRequest { size: 1, extension: Some(&long), post_id: 1 };
    assert_eq!(
        request.validate(&config()),
        ValidationErrors { extension_too_long: true, ..no_errors() }
    );
    let request = UploadAddRequest { size: 1, extension: Some("t.xt"), post_id: 1 };
    assert_eq!(
        request.validate(&config()),
        ValidationErrors { extension_invalid_chars: true, ..no_errors() }
    );
    let request = UploadAddRequest { size: 1, extension: Some(""), post_id: 1 };
    assert_eq!(
        request.validate(&config()),
        ValidationErrors { extension_invalid_chars: true, ..no_errors() }
    );
    let bad = "é".repeat(33);
    let request = UploadAddRequest { size: 0, extension: Some(&bad), post_id: 1 };
    assert_eq!(
        request.validate(&config()),
        ValidationErrors {
            size_is_zero: true,
            extension_too_long: true,
            extension_invalid_chars: true,
            ..no_errors()
        }
    );
}

#[test]
fn a_size_beyond_the_ledger_is_too_large() {
    let mut config = config();
    config.max_file_size = u64::MAX;
    let request = UploadAddRequest { size: i64::MAX as u64, extension: None, post_id: 1 };
    assert_eq!(request.validate(&config), no_errors());
    let request = UploadAddRequest { size: (i64::MAX as u64) + 1, extension: None, post_id: 1 };
    assert_eq!(request.validate(&config), ValidationErrors { size_too_large: true, ..no_errors() });
}

#[test]
fn create_allocates_the_file() {
    let mut ledger = ledger_with_post();
    let files = Files::new();
    let request = UploadAddRequest { size: 51, extension: Some("txt"), post_id: 1 };
    let response = upload_add_post(
        request,
        &mut ledger,
        &user("admin1"),
        &config(),
        |request: &StorageRequest| files.perform(request, &[]),
        77,
    );
    assert_eq!(response, Ok(UploadAddResponseOk { id: 1 }));
    assert_eq!(
        *files.asked.borrow(),
        vec![StorageRequest::Allocate { id: 1, extension: Some("txt".to_string()), size: 51 }]
    );
    assert_eq!(files.private.borrow().get("0000000000000001.txt").unwrap().len(), 51);
    assert_eq!(
        get_upload(1, &ledger),
        Ok(UploadFull {
            id: 1,
            extension: Some("txt".to_string()),
            size: 51,
            creation_date: 77,
            file_status: UploadStatus::Allocated,
            post_id: 1,
            post_author_username: "admin1".to_string(),
        })
    );
}

#[test]
fn create_refuses_an_invalid_request() {
    let mut ledger = ledger_with_post();
    let request = UploadAddRequest { size: 0, extension: Some("a.b"), post_id: 1 };
    let response =
        upload_add_post(request, &mut ledger, &user("admin1"), &config(), untouched, 77);
    assert_eq!(
        response,
        Err(Error::ValidationErrors(ValidationErrors {
            size_is_zero: true,
            extension_invalid_chars: true,
            ..no_errors()
        }))
    );
    assert_eq!(ledger.upload_count(), 0);
}

#[test]
fn create_refuses_unknown_posts_and_other_users() {
    let mut ledger = ledger_with_post();
    let request = UploadAddRequest { size: 5, extension: None, post_id: 2 };
    let response =
        upload_add_post(request, &mut ledger, &user("admin1"), &config(), untouched, 77);
    assert_eq!(response, Err(Error::DoesNotExist));
    let request = UploadAddRequest { size: 5, extension: None, post_id: 1 };
    let response =
        upload_add_post(request, &mut ledger, &user("somebody"), &config(), untouched, 77);
    assert_eq!(response, Err(Error::AccessDenied));
    assert_eq!(ledger.upload_count(), 0);
}

#[test]
fn failed_allocation_leaves_the_upload_initialized() {
    let mut ledger = ledger_with_post();
    let request = UploadAddRequest { size: 5, extension: None, post_id: 1 };
    let response = upload_add_post(request, &mut ledger, &user("admin1"), &config(), failing, 77);
    assert_eq!(response, Err(Error::IO("disk full".to_string())));
    assert_eq!(status_of(&ledger, 1), UploadStatus::Initialized);
}

#[test]
fn round_trip_publishes_the_written_bytes() {
    let mut ledger = ledger_with_post();
    let files = Files::new();
    let size = CONTENT.len() as u64;
    assert_eq!(size, 51);
    let id = create(&mut ledger, &files, size, Some("txt"));

    let range = ContentRange::parse(&format!("bytes {}-{}/{}", 0, size - 1, size)).unwrap();
    let written = upload_upload_by_chunk_put(
        id,
        &mut ledger,
        &user("admin1"),
        |request: &StorageRequest| files.perform(request, CONTENT),
        range,
    );
    assert_eq!(written, Ok(UploadByChunkResponseOk {}));
    assert_eq!(status_of(&ledger, id), UploadStatus::Allocated);
    assert!(files.public.borrow().is_empty());

    let finalized = upload_finalize_post(id, &mut ledger, &user("admin1"), |request: &StorageRequest| {
        files.perform(request, &[])
    });
    assert_eq!(finalized, Ok(UploadByChunkResponseOk {}));
    assert_eq!(status_of(&ledger, id), UploadStatus::Published);

    let upload: Upload = get_upload(id, &ledger).unwrap().to_upload();
    assert_eq!(upload.file_url(&config().storage), "/media/0000000000000001.txt");
    assert_eq!(files.public.borrow().get("0000000000000001.txt").unwrap().as_slice(), CONTENT);
    assert_eq!(files.private.borrow().get("0000000000000001.txt").unwrap().as_slice(), CONTENT);
}

#[test]
fn round_trip_of_a_file_written_in_one_chunk() {
    let mut ledger = ledger_with_post();
    let files = Files::new();
    let size = SHORT_CONTENT.len() as u64;
    let id = create(&mut ledger, &files, size, Some("txt"));
    let range = ContentRange::parse(&format!("bytes {}-{}/{}", 0, size - 1, size)).unwrap();
    let written = upload_upload_by_chunk_put(
        id,
        &mut ledger,
        &user("admin1"),
        |request: &StorageRequest| files.perform(request, SHORT_CONTENT),
        range,
    );
    assert_eq!(written, Ok(UploadByChunkResponseOk {}));
    let finalized = upload_finalize_post(id, &mut ledger, &user("admin1"), |request: &StorageRequest| {
        files.perform(request, &[])
    });
    assert_eq!(finalized, Ok(UploadByChunkResponseOk {}));
    assert_eq!(
        files.public.borrow().get("0000000000000001.txt").unwrap().as_slice(),
        SHORT_CONTENT
    );
}

#[test]
fn chunks_may_come_in_any_order() {
    let mut ledger = ledger_with_post();
    let files = Files::new();
    let id = create(&mut ledger, &files, 51, None);
    for (first, last) in [(40u64, 50u64), (0, 9), (10, 39)] {
        let range = ContentRange::Bytes { first_byte: first, last_byte: last, complete_length: 51 };
        let body = &CONTENT[first as usize..=last as usize];
        let written = upload_upload_by_chunk_put(
            id,
            &mut ledger,
            &user("admin1"),
            |request: &StorageRequest| files.perform(request, body),
            range,
        );
        assert_eq!(written, Ok(UploadByChunkResponseOk {}));
        assert_eq!(status_of(&ledger, id), UploadStatus::Allocated);
    }
    let last = files.asked.borrow().last().map(|request| request.file_name());
    assert_eq!(last, Some("0000000000000001".to_string()));
    assert_eq!(
        files.asked.borrow()[1],
        StorageRequest::Write { id, extension: None, start_pos: 40, length: 11 }
    );
    upload_finalize_post(id, &mut ledger, &user("admin1"), |request: &StorageRequest| {
        files.perform(request, &[])
    })
    .unwrap();
    assert_eq!(files.public.borrow().get("0000000000000001").unwrap().as_slice(), CONTENT);
}

#[test]
fn unbounded_range_is_written_without_a_total() {
    let mut ledger = ledger_with_post();
    let files = Files::new();
    let id = create(&mut ledger, &files, 10, None);
    let range = ContentRange::parse("bytes 2-5/*").unwrap();
    let written = upload_upload_by_chunk_put(
        id,
        &mut ledger,
        &user("admin1"),
        |request: &StorageRequest| files.perform(request, b"abcd"),
        range,
    );
    assert_eq!(written, Ok(UploadByChunkResponseOk {}));
    assert_eq!(
        files.private.borrow().get("0000000000000001").unwrap().as_slice(),
        b"\0\0abcd\0\0\0\0"
    );
}

#[test]
fn declared_length_mismatch_is_rejected() {
    let mut ledger = ledger_with_post();
    let files = Files::new();
    let id = create(&mut ledger, &files, 10, None);
    let range = ContentRange::Bytes { first_byte: 0, last_byte: 9, complete_length: 20 };
    let written = upload_upload_by_chunk_put(id, &mut ledger, &user("admin1"), untouched, range);
    assert_eq!(written, Err(Error::InvalidContentRange));
    assert_eq!(status_of(&ledger, id), UploadStatus::Allocated);
}

#[test]
fn range_without_a_length_is_rejected_after_the_claim() {
    let mut ledger = ledger_with_post();
    let files = Files::new();
    let id = create(&mut ledger, &files, 10, None);
    let whole = ContentRange::parse("bytes 0-18446744073709551615/*").unwrap();
    assert_eq!(whole, ContentRange::Unbound { first_byte: 0, last_byte: u64::MAX });
    for range in [whole, ContentRange::Unbound { first_byte: 9, last_byte: 3 }] {
        let written = upload_upload_by_chunk_put(id, &mut ledger, &user("admin1"), untouched, range);
        assert_eq!(written, Err(Error::InvalidContentRange));
        assert_eq!(status_of(&ledger, id), UploadStatus::Allocated);
    }
}

#[test]
fn who_may_write_is_settled_before_the_range_is_looked_at() {
    let mut ledger = ledger_with_post();
    let files = Files::new();
    let id = create(&mut ledger, &files, 10, None);
    let range = ContentRange::Unbound { first_byte: 0, last_byte: u64::MAX };
    assert_eq!(
        upload_upload_by_chunk_put(404, &mut ledger, &user("admin1"), untouched, range),
        Err(Error::DoesNotExist)
    );
    assert_eq!(
        upload_upload_by_chunk_put(id, &mut ledger, &user("admin2"), untouched, range),
        Err(Error::AccessDenied)
    );
    assert_eq!(status_of(&ledger, id), UploadStatus::Allocated);
    upload_finalize_post(id, &mut ledger, &user("admin1"), |request: &StorageRequest| {
        files.perform(request, &[])
    })
    .unwrap();
    assert_eq!(
        upload_upload_by_chunk_put(id, &mut ledger, &user("admin1"), untouched, range),
        Err(Error::InvalidUploadState)
    );
    assert_eq!(status_of(&ledger, id), UploadStatus::Published);
}

#[test]
fn flow_reverts_a_claim_for_a_range_without_a_length() {
    let record = UploadFull {
        id: 5,
        extension: None,
        size: 10,
        creation_date: 0,
        file_status: UploadStatus::Allocated,
        post_id: 1,
        post_author_username: "admin1".to_string(),
    };
    let range = ContentRange::Unbound { first_byte: 9, last_byte: 3 };
    let (flow, action) = UploadFlow::write_chunk(5, "admin1", range);
    assert_eq!(action, FlowAction::GetUpload { id: 5 });
    let (flow, action) = flow.step(FlowEvent::Found(Ok(record.clone())));
    assert_eq!(action, FlowAction::SetStatusCheckExists { id: 5, status: UploadStatus::Writing });
    let (flow, action) = flow.step(FlowEvent::StatusChecked(Ok(Some(record))));
    assert_eq!(action, FlowAction::SetStatus { id: 5, status: UploadStatus::Allocated });
    let (_, action) = flow.step(FlowEvent::StatusSet(Ok(Some(()))));
    assert_eq!(action, FlowAction::Finish(Err(Error::InvalidContentRange)));
}

#[test]
fn write_to_an_unknown_upload_does_not_exist() {
    let mut ledger = ledger_with_post();
    let range = ContentRange::Unbound { first_byte: 0, last_byte: 3 };
    let written = upload_upload_by_chunk_put(1, &mut ledger, &user("admin1"), untouched, range);
    assert_eq!(written, Err(Error::DoesNotExist));
}

#[test]
fn only_the_owner_may_act_on_an_upload() {
    let mut ledger = ledger_with_post();
    let files = Files::new();
    let id = create(&mut ledger, &files, 10, None);
    let range = ContentRange::Unbound { first_byte: 0, last_byte: 3 };
    let stranger = user("admin2");
    assert_eq!(
        upload_upload_by_chunk_put(id, &mut ledger, &stranger, untouched, range),
        Err(Error::AccessDenied)
    );
    assert_eq!(
        upload_finalize_post(id, &mut ledger, &stranger, untouched),
        Err(Error::AccessDenied)
    );
    assert_eq!(upload_hide_post(id, &mut ledger, &stranger, untouched), Err(Error::AccessDenied));
    assert_eq!(status_of(&ledger, id), UploadStatus::Allocated);
}

#[test]
fn write_in_a_wrong_status_is_a_conflict() {
    let mut ledger = ledger_with_post();
    let files = Files::new();
    let id = create(&mut ledger, &files, 10, None);
    upload_finalize_post(id, &mut ledger, &user("admin1"), |request: &StorageRequest| {
        files.perform(request, &[])
    })
    .unwrap();
    let range = ContentRange::Unbound { first_byte: 0, last_byte: 3 };
    let written = upload_upload_by_chunk_put(id, &mut ledger, &user("admin1"), untouched, range);
    assert_eq!(written, Err(Error::InvalidUploadState));
    assert_eq!(status_of(&ledger, id), UploadStatus::Published);
}

#[test]
fn failed_write_reverts_to_allocated() {
    let mut ledger = ledger_with_post();
    let files = Files::new();
    let id = create(&mut ledger, &files, 10, None);
    let range = ContentRange::Unbound { first_byte: 0, last_byte: 3 };
    let written = upload_upload_by_chunk_put(id, &mut ledger, &user("admin1"), failing, range);
    assert_eq!(written, Err(Error::IO("disk full".to_string())));
    assert_eq!(status_of(&ledger, id), UploadStatus::Allocated);
}

#[test]
fn finalize_twice_is_a_conflict() {
    let mut ledger = ledger_with_post();
    let files = Files::new();
    let id = create(&mut ledger, &files, 10, None);
    let store = |request: &StorageRequest| files.perform(request, &[]);
    assert_eq!(
        upload_finalize_post(id, &mut ledger, &user("admin1"), store),
        Ok(UploadByChunkResponseOk {})
    );
    assert_eq!(
        upload_finalize_post(id, &mut ledger, &user("admin1"), untouched),
        Err(Error::InvalidUploadState)
    );
    assert_eq!(status_of(&ledger, id), UploadStatus::Published);
}

#[test]
fn failed_publish_leaves_the_upload_publishing() {
    let mut ledger = ledger_with_post();
    let files = Files::new();
    let id = create(&mut ledger, &files, 10, None);
    assert_eq!(
        upload_finalize_post(id, &mut ledger, &user("admin1"), failing),
        Err(Error::IO("disk full".to_string()))
    );
    assert_eq!(status_of(&ledger, id), UploadStatus::Publishing);
}

#[test]
fn hide_removes_a_published_upload() {
    let mut ledger = ledger_with_post();
    let files = Files::new();
    let id = create(&mut ledger, &files, 10, Some("png"));
    assert_eq!(
        upload_hide_post(id, &mut ledger, &user("admin1"), untouched),
        Err(Error::InvalidUploadState)
    );
    upload_finalize_post(id, &mut ledger, &user("admin1"), |request: &StorageRequest| {
        files.perform(request, &[])
    })
    .unwrap();
    assert_eq!(files.public.borrow().len(), 1);
    let hidden = upload_hide_post(id, &mut ledger, &user("admin1"), |request: &StorageRequest| {
        files.perform(request, &[])
    });
    assert_eq!(hidden, Ok(UploadByChunkResponseOk {}));
    assert_eq!(status_of(&ledger, id), UploadStatus::Hidden);
    assert!(files.public.borrow().is_empty());
    assert!(files.private.borrow().is_empty());
    assert_eq!(
        files.asked.borrow().last(),
        Some(&StorageRequest::Unpublish { id, extension: Some("png".to_string()) })
    );
}

#[test]
fn failed_unpublish_leaves_the_upload_hiding() {
    let mut ledger = ledger_with_post();
    let files = Files::new();
    let id = create(&mut ledger, &files, 10, None);
    upload_finalize_post(id, &mut ledger, &user("admin1"), |request: &StorageRequest| {
        files.perform(request, &[])
    })
    .unwrap();
    assert_eq!(
        upload_hide_post(id, &mut ledger, &user("admin1"), failing),
        Err(Error::IO("disk full".to_string()))
    );
    assert_eq!(status_of(&ledger, id), UploadStatus::Hiding);
}

#[test]
fn hide_of_an_unknown_upload_does_not_exist() {
    let mut ledger = ledger_with_post();
    assert_eq!(
        upload_hide_post(3, &mut ledger, &user("admin1"), untouched),
        Err(Error::DoesNotExist)
    );
    assert_eq!(
        upload_finalize_post(0, &mut ledger, &user("admin1"), untouched),
        Err(Error::DoesNotExist)
    );
}

#[test]
fn flow_kinds_name_their_statuses() {
    let write = FlowKind::Write(ContentRange::Unbound { first_byte: 0, last_byte: 0 });
    assert_eq!(
        (write.required_status(), write.claim_status(), write.final_status()),
        (UploadStatus::Allocated, UploadStatus::Writing, UploadStatus::Allocated)
    );
    assert_eq!(
        (
            FlowKind::Finalize.required_status(),
            FlowKind::Finalize.claim_status(),
            FlowKind::Finalize.final_status()
        ),
        (UploadStatus::Allocated, UploadStatus::Publishing, UploadStatus::Published)
    );
    assert_eq!(
        (FlowKind::Hide.required_status(), FlowKind::Hide.claim_status(), FlowKind::Hide.final_status()),
        (UploadStatus::Published, UploadStatus::Hiding, UploadStatus::Hidden)
    );
}

#[test]
fn write_flow_asks_for_one_action_at_a_time() {
    let record = UploadFull {
        id: 5,
        extension: Some("txt".to_string()),
        size: 10,
        creation_date: 0,
        file_status: UploadStatus::Allocated,
        post_id: 1,
        post_author_username: "admin1".to_string(),
    };
    let range = ContentRange::Bytes { first_byte: 2, last_byte: 9, complete_length: 10 };
    let (flow, action) = UploadFlow::write_chunk(5, "admin1", range);
    assert_eq!(action, FlowAction::GetUpload { id: 5 });
    let (flow, action) = flow.step(FlowEvent::Found(Ok(record.clone())));
    assert_eq!(action, FlowAction::SetStatusCheckExists { id: 5, status: UploadStatus::Writing });
    let (flow, action) = flow.step(FlowEvent::StatusChecked(Ok(Some(record))));
    assert_eq!(
        action,
        FlowAction::Storage(StorageRequest::Write {
            id: 5,
            extension: Some("txt".to_string()),
            start_pos: 2,
            length: 8,
        })
    );
    let (flow, action) = flow.step(FlowEvent::Stored(Ok(())));
    assert_eq!(action, FlowAction::SetStatus { id: 5, status: UploadStatus::Allocated });
    let (flow, action) = flow.step(FlowEvent::StatusSet(Ok(Some(()))));
    assert_eq!(action, FlowAction::Finish(Ok(FlowOutput::Chunk(UploadByChunkResponseOk {}))));
    assert_eq!(flow, UploadFlow::Finished);
}

#[test]
fn mismatch_flow_reverts_before_it_answers() {
    let record = UploadFull {
        id: 5,
        extension: None,
        size: 10,
        creation_date: 0,
        file_status: UploadStatus::Allocated,
        post_id: 1,
        post_author_username: "admin1".to_string(),
    };
    let range = ContentRange::Bytes { first_byte: 0, last_byte: 9, complete_length: 20 };
    let (flow, _) = UploadFlow::write_chunk(5, "admin1", range);
    let (flow, _) = flow.step(FlowEvent::Found(Ok(record.clone())));
    let (flow, action) = flow.step(FlowEvent::StatusChecked(Ok(Some(record))));
    assert_eq!(action, FlowAction::SetStatus { id: 5, status: UploadStatus::Allocated });
    let (_, action) = flow.step(FlowEvent::StatusSet(Ok(Some(()))));
    assert_eq!(action, FlowAction::Finish(Err(Error::InvalidContentRange)));
}

#[test]
fn failed_revert_is_reported_instead_of_the_first_error() {
    let failed_write = || {
        let (flow, _) = UploadFlow::Working {
            kind: FlowKind::Write(ContentRange::Unbound { first_byte: 0, last_byte: 1 }),
            id: 5,
        }
        .step(FlowEvent::Stored(Err(Error::IO("disk full".to_string()))));
        flow
    };
    let (_, action) = failed_write().step(FlowEvent::StatusSet(Ok(Some(()))));
    assert_eq!(action, FlowAction::Finish(Err(Error::IO("disk full".to_string()))));
    let (_, action) = failed_write().step(FlowEvent::StatusSet(Ok(None)));
    assert_eq!(action, FlowAction::Finish(Err(Error::InvalidUploadState)));
    let (_, action) =
        failed_write().step(FlowEvent::StatusSet(Err(Error::Sqlx("gone".to_string()))));
    assert_eq!(action, FlowAction::Finish(Err(Error::Sqlx("gone".to_string()))));
}

#[test]
fn an_event_out_of_turn_ends_the_flow() {
    let (flow, _) = UploadFlow::finalize_upload(1, "admin1");
    let (flow, action) = flow.step(FlowEvent::Stored(Ok(())));
    assert_eq!(action, FlowAction::Finish(Err(Error::Unknown)));
    assert_eq!(flow, UploadFlow::Finished);
    let (_, action) = flow.step(FlowEvent::StatusSet(Ok(Some(()))));
    assert_eq!(action, FlowAction::Finish(Err(Error::Unknown)));
}

#[test]
fn concurrent_finalize_lets_one_through() {
    let mut ledger = ledger_with_post();
    let files = Files::new();
    let id = create(&mut ledger, &files, 10, None);
    let admin = user("admin1");

    let (first, first_action) = UploadFlow::finalize_upload(id, "admin1");
    let (second, second_action) = UploadFlow::finalize_upload(id, "admin1");
    // Both read the record while it is still allocated.
    let (first, first_action) = answer_from_ledger(first, first_action, &admin, &mut ledger, 0);
    let (second, second_action) = answer_from_ledger(second, second_action, &admin, &mut ledger, 0);
    assert_eq!(
        first_action,
        FlowAction::SetStatusCheckExists { id, status: UploadStatus::Publishing }
    );
    assert_eq!(second_action, first_action);
    // Both try to claim it.
    let (first, first_action) = answer_from_ledger(first, first_action, &admin, &mut ledger, 0);
    let (second, second_action) = answer_from_ledger(second, second_action, &admin, &mut ledger, 0);
    assert_eq!(
        first_action,
        FlowAction::Storage(StorageRequest::Publish { id, extension: None })
    );
    assert_eq!(first, UploadFlow::Working { kind: FlowKind::Finalize, id });
    assert_eq!(second_action, FlowAction::Finish(Err(Error::InvalidUploadState)));
    assert_eq!(second, UploadFlow::Finished);
    assert_eq!(status_of(&ledger, id), UploadStatus::Publishing);
}

#[test]
fn a_swept_upload_refuses_the_end_of_a_write() {
    // The sweeper claims the upload while a chunk is being stored: the
    // flow cannot move it back, and says so.
    let mut ledger = ledger_with_post();
    let files = Files::new();
    let id = create(&mut ledger, &files, 10, None);
    let admin = user("admin1");
    let range = ContentRange::Unbound { first_byte: 0, last_byte: 3 };
    let (flow, action) = UploadFlow::write_chunk(id, "admin1", range);
    let (flow, action) = answer_from_ledger(flow, action, &admin, &mut ledger, 0);
    let (flow, action) = answer_from_ledger(flow, action, &admin, &mut ledger, 0);
    assert_eq!(status_of(&ledger, id), UploadStatus::Writing);
    assert!(matches!(action, FlowAction::Storage(StorageRequest::Write { .. })));
    assert_eq!(try_set_upload_status(id, UploadStatus::Missing, &mut ledger), Ok(Some(())));
    let (flow, action) = flow.step(FlowEvent::Stored(Ok(())));
    let (_, action) = answer_from_ledger(flow, action, &admin, &mut ledger, 0);
    assert_eq!(action, FlowAction::Finish(Err(Error::InvalidUploadState)));
    assert_eq!(status_of(&ledger, id), UploadStatus::Missing);
}

#[test]
fn abandoned_upload_is_swept_with_its_files() {
    let mut ledger = ledger_with_post();
    let files = Files::new();
    let id = create(&mut ledger, &files, 10, Some("txt"));
    assert_eq!(status_of(&ledger, id), UploadStatus::Allocated);
    assert!(files.private.borrow().contains_key("0000000000000001.txt"));

    let swept = run_cleanup_storage_with_pool(
        &mut ledger,
        |request: &StorageRequest| files.perform(request, &[]),
        2,
        0,
        78,
    );
    assert_eq!(swept, Ok(()));
    assert_eq!(status_of(&ledger, id), UploadStatus::Hidden);
    assert!(files.private.borrow().is_empty());
    assert!(files.public.borrow().is_empty());
}

#[test]
fn published_upload_survives_the_sweep() {
    let mut ledger = ledger_with_post();
    let files = Files::new();
    let id = create(&mut ledger, &files, 10, None);
    upload_finalize_post(id, &mut ledger, &user("admin1"), |request: &StorageRequest| {
        files.perform(request, &[])
    })
    .unwrap();
    let swept = run_cleanup_storage_with_pool(
        &mut ledger,
        |request: &StorageRequest| files.perform(request, &[]),
        2,
        0,
        1_000_000,
    );
    assert_eq!(swept, Ok(()));
    assert_eq!(status_of(&ledger, id), UploadStatus::Published);
    assert_eq!(files.public.borrow().len(), 1);
    assert_eq!(files.private.borrow().len(), 1);
}

#[test]
fn half_hidden_upload_is_finished_by_the_sweep() {
    let mut ledger = ledger_with_post();
    let files = Files::new();
    let id = create(&mut ledger, &files, 10, None);
    upload_finalize_post(id, &mut ledger, &user("admin1"), |request: &StorageRequest| {
        files.perform(request, &[])
    })
    .unwrap();
    assert_eq!(
        upload_hide_post(id, &mut ledger, &user("admin1"), failing),
        Err(Error::IO("disk full".to_string()))
    );
    assert_eq!(status_of(&ledger, id), UploadStatus::Hiding);
    // However young the upload, a sweep takes up what the request left.
    let swept = run_cleanup_storage_with_pool(
        &mut ledger,
        |request: &StorageRequest| files.perform(request, &[]),
        2,
        1_000_000,
        78,
    );
    assert_eq!(swept, Ok(()));
    assert_eq!(status_of(&ledger, id), UploadStatus::Hidden);
    assert!(files.public.borrow().is_empty());
    assert!(files.private.borrow().is_empty());
}
