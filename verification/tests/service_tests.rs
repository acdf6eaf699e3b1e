use chrono::Utc;
use memo_core::dto::{CreateMemoDto, PaginationParams, PatchMemoDto, UpdateMemoDto};
use memo_core::error::AppError;
use memo_core::services::MemoService;
use memo_core::store::MemoStore;

fn setup_test_service() -> MemoService {
    MemoService::new(MemoStore::new())
}

fn now() -> i64 {
    Utc::now().timestamp_micros()
}

#[test]
fn test_create_memo() {
    let mut service = setup_test_service();

    let create_dto = CreateMemoDto {
        title: "Test Memo".to_string(),
        description: Some("Test description".to_string()),
        date_to: now(),
    };

    let result = service.create_memo(create_dto);
    assert!(result.is_ok());

    let memo = result.unwrap();
    assert_eq!(memo.title, "Test Memo");
    assert_eq!(memo.description, Some("Test description".to_string()));
    assert!(!memo.completed);

    service.delete_memo(memo.id).ok();
}

#[test]
fn test_get_memo_by_id() {
    let mut service = setup_test_service();

    let create_dto = CreateMemoDto {
        title: "Test Get By ID".to_string(),
        description: None,
        date_to: now(),
    };

    let created = service.create_memo(create_dto).unwrap();

    let result = service.get_memo_by_id(created.id);
    assert!(result.is_ok());

    let memo = result.unwrap();
    assert_eq!(memo.id, created.id);
    assert_eq!(memo.title, "Test Get By ID");

    service.delete_memo(created.id).ok();
}

#[test]
fn test_get_memo_by_id_not_found() {
    let service = setup_test_service();
    let fake_id = uuid::Uuid::new_v4().as_u128();

    let result = service.get_memo_by_id(fake_id);
    assert!(result.is_err());
}

#[test]
fn test_update_memo() {
    let mut service = setup_test_service();

    let create_dto = CreateMemoDto {
        title: "Original Title".to_string(),
        description: Some("Original description".to_string()),
        date_to: now(),
    };

    let created = service.create_memo(create_dto).unwrap();

    let update_dto = UpdateMemoDto {
        title: "Updated Title".to_string(),
        description: Some("Updated description".to_string()),
        date_to: now(),
        completed: true,
    };

    let result = service.update_memo(created.id, update_dto);
    assert!(result.is_ok());

    let updated = result.unwrap();
    assert_eq!(updated.title, "Updated Title");
    assert_eq!(updated.description, Some("Updated description".to_string()));
    assert!(updated.completed);

    service.delete_memo(created.id).ok();
}

#[test]
fn test_patch_memo() {
    let mut service = setup_test_service();

    let create_dto = CreateMemoDto {
        title: "Original Title".to_string(),
        description: Some("Original description".to_string()),
        date_to: now(),
    };

    let created = service.create_memo(create_dto).unwrap();

    let patch_dto = PatchMemoDto {
        title: Some("Patched Title".to_string()),
        description: None,
        date_to: None,
        completed: None,
    };

    let result = service.patch_memo(created.id, patch_dto);
    assert!(result.is_ok());

    let patched = result.unwrap();
    assert_eq!(patched.title, "Patched Title");
    assert_eq!(
        patched.description,
        Some("Original description".to_string())
    );
    assert!(!patched.completed);

    service.delete_memo(created.id).ok();
}

#[test]
fn test_toggle_complete() {
    let mut service = setup_test_service();

    let create_dto = CreateMemoDto {
        title: "Toggle Test".to_string(),
        description: None,
        date_to: now(),
    };

    let created = service.create_memo(create_dto).unwrap();
    assert!(!created.completed);

    let toggled = service.toggle_complete(created.id).unwrap();
    assert!(toggled.completed);

    let toggled_again = service.toggle_complete(created.id).unwrap();
    assert!(!toggled_again.completed);

    service.delete_memo(created.id).ok();
}

#[test]
fn test_delete_memo() {
    let mut service = setup_test_service();

    let create_dto = CreateMemoDto {
        title: "To Delete".to_string(),
        description: None,
        date_to: now(),
    };

    let created = service.create_memo(create_dto).unwrap();

    let result = service.delete_memo(created.id);
    assert!(result.is_ok());

    let get_result = service.get_memo_by_id(created.id);
    assert!(get_result.is_err());
}

#[test]
fn test_delete_memo_not_found() {
    let mut service = setup_test_service();
    let fake_id = uuid::Uuid::new_v4().as_u128();

    let result = service.delete_memo(fake_id);
    assert!(result.is_err());
}

#[test]
fn test_get_all_memos() {
    let mut service = setup_test_service();

    let create_dto1 = CreateMemoDto {
        title: "Memo 1".to_string(),
        description: None,
        date_to: now(),
    };
    let memo1 = service.create_memo(create_dto1).unwrap();

    let create_dto2 = CreateMemoDto {
        title: "Memo 2".to_string(),
        description: None,
        date_to: now(),
    };
    let memo2 = service.create_memo(create_dto2).unwrap();

    let params = PaginationParams {
        limit: Some(10),
        offset: Some(0),
        completed: None,
        sort_by: Some("created_at".to_string()),
        order: Some("desc".to_string()),
    };

    let result = service.get_all_memos(params);
    assert!(result.is_ok());

    let response = result.unwrap();
    assert!(response.total >= 2);
    assert!(!response.data.is_empty());

    service.delete_memo(memo1.id).ok();
    service.delete_memo(memo2.id).ok();
}

#[test]
fn test_get_all_memos_with_filter() {
    let mut service = setup_test_service();

    let create_dto = CreateMemoDto {
        title: "Completed Memo".to_string(),
        description: None,
        date_to: now(),
    };
    let created = service.create_memo(create_dto).unwrap();

    let update_dto = UpdateMemoDto {
        title: created.title.clone(),
        description: None,
        date_to: created.date_to,
        completed: true,
    };
    service.update_memo(created.id, update_dto).unwrap();

    let params = PaginationParams {
        limit: Some(10),
        offset: Some(0),
        completed: Some(true),
        sort_by: Some("created_at".to_string()),
        order: Some("desc".to_string()),
    };

    let result = service.get_all_memos(params);
    assert!(result.is_ok());

    let response = result.unwrap();
    assert!(response.total >= 1);
    assert!(response.data.iter().all(|m| m.completed));

    service.delete_memo(created.id).ok();
}

#[test]
fn test_create_memo_validation_fails() {
    let mut service = setup_test_service();

    let create_dto = CreateMemoDto {
        title: "".to_string(),
        description: None,
        date_to: now(),
    };

    let result = service.create_memo(create_dto);
    assert!(result.is_err());
}

#[test]
fn test_pagination() {
    let mut service = setup_test_service();

    let mut created_ids = Vec::new();
    for i in 0..5 {
        let create_dto = CreateMemoDto {
            title: format!("Pagination Test {}", i),
            description: None,
            date_to: now(),
        };
        let memo = service.create_memo(create_dto).unwrap();
        created_ids.push(memo.id);
    }

    let params = PaginationParams {
        limit: Some(2),
        offset: Some(0),
        completed: None,
        sort_by: Some("created_at".to_string()),
        order: Some("desc".to_string()),
    };

    let result = service.get_all_memos(params);
    assert!(result.is_ok());

    let response = result.unwrap();
    assert_eq!(response.limit, 2);
    assert!(response.data.len() <= 2);

    for id in created_ids {
        service.delete_memo(id).ok();
    }
}

fn create_dto(title: &str, description: Option<&str>, date_to: i64) -> CreateMemoDto {
    CreateMemoDto {
        title: title.to_string(),
        description: description.map(|s| s.to_string()),
        date_to,
    }
}

fn empty_patch() -> PatchMemoDto {
    PatchMemoDto { title: None, description: None, date_to: None, completed: None }
}

#[test]
fn created_memo_is_open_and_stamped_once() {
    let mut service = setup_test_service();
    let memo = service.create_memo_with(9, 1_234, create_dto("A", None, 55)).unwrap();
    assert_eq!(memo.id, 9);
    assert_eq!(memo.title, "A");
    assert_eq!(memo.description, None);
    assert_eq!(memo.date_to, 55);
    assert!(!memo.completed);
    assert_eq!(memo.created_at, 1_234);
    assert_eq!(memo.updated_at, 1_234);

    let clocked = service.create_memo(create_dto("B", None, 55)).unwrap();
    assert!(!clocked.completed);
    assert_eq!(clocked.created_at, clocked.updated_at);
}

#[test]
fn update_and_patch_stamp_the_time_of_the_change() {
    let mut service = setup_test_service();
    service.create_memo_with(1, 100, create_dto("A", Some("d"), 5)).unwrap();
    let update = UpdateMemoDto {
        title: "B".to_string(),
        description: None,
        date_to: 6,
        completed: true,
    };
    let updated = service.update_memo_at(1, 200, update).unwrap();
    assert_eq!(updated.updated_at, 200);
    assert_eq!(updated.created_at, 100);
    assert_eq!(updated.title, "B");
    assert_eq!(updated.description, None);
    assert_eq!(updated.date_to, 6);
    assert!(updated.completed);

    let patched = service.patch_memo_at(1, 300, empty_patch()).unwrap();
    assert_eq!(patched.updated_at, 300);
    assert!(patched.updated_at >= updated.updated_at);
    assert_eq!(patched.created_at, 100);
}

#[test]
fn empty_patch_keeps_every_field_but_the_time() {
    let mut service = setup_test_service();
    let created = service.create_memo_with(1, 100, create_dto("A", Some("d"), 5)).unwrap();
    let patched = service.patch_memo_at(1, 300, empty_patch()).unwrap();
    assert_eq!(patched.id, created.id);
    assert_eq!(patched.title, created.title);
    assert_eq!(patched.description, created.description);
    assert_eq!(patched.date_to, created.date_to);
    assert_eq!(patched.completed, created.completed);
    assert_eq!(patched.created_at, created.created_at);
    assert_eq!(patched.updated_at, 300);
}

#[test]
fn patch_overrides_exactly_the_named_fields() {
    let mut service = setup_test_service();
    service.create_memo_with(1, 100, create_dto("A", Some("d"), 5)).unwrap();
    let patch = PatchMemoDto {
        title: None,
        description: Some("".to_string()),
        date_to: Some(8),
        completed: Some(true),
    };
    let patched = service.patch_memo_at(1, 150, patch).unwrap();
    assert_eq!(patched.title, "A");
    assert_eq!(patched.description, Some("".to_string()));
    assert_eq!(patched.date_to, 8);
    assert!(patched.completed);
    let stored = service.get_memo_by_id(1).unwrap();
    assert_eq!(stored.description, Some("".to_string()));
    assert_eq!(stored.updated_at, 150);
}

#[test]
fn patch_checks_only_the_fields_it_names() {
    let mut service = setup_test_service();
    service.create_memo_with(1, 100, create_dto("A", None, 5)).unwrap();
    let bad = PatchMemoDto {
        title: Some("".to_string()),
        description: None,
        date_to: None,
        completed: None,
    };
    match service.patch_memo_at(1, 150, bad) {
        Err(AppError::Validation(text)) => assert_eq!(
            text,
            "Validation failed: title: Title must be between 1 and 200 characters"
        ),
        other => panic!("expected a validation error, got {:?}", other),
    }
    let stored = service.get_memo_by_id(1).unwrap();
    assert_eq!(stored.title, "A");
    assert_eq!(stored.updated_at, 100);
}

#[test]
fn toggle_twice_restores_the_flag_and_keeps_the_rest() {
    let mut service = setup_test_service();
    let created = service.create_memo_with(1, 100, create_dto("A", Some("d"), 5)).unwrap();
    let once = service.toggle_complete_at(1, 200).unwrap();
    assert!(once.completed);
    assert_eq!(once.updated_at, 200);
    let twice = service.toggle_complete_at(1, 300).unwrap();
    assert_eq!(twice.completed, created.completed);
    assert_eq!(twice.title, created.title);
    assert_eq!(twice.description, created.description);
    assert_eq!(twice.date_to, created.date_to);
    assert_eq!(twice.created_at, created.created_at);
    assert_eq!(twice.updated_at, 300);
}

#[test]
fn missing_memo_is_not_found_not_a_store_failure() {
    let mut service = setup_test_service();
    let expected = "Memo with id 00000000-0000-0000-0000-000000000007 not found";
    match service.delete_memo(7) {
        Err(AppError::NotFound(text)) => assert_eq!(text, expected),
        other => panic!("expected not found, got {:?}", other),
    }
    let update = UpdateMemoDto {
        title: "B".to_string(),
        description: None,
        date_to: 6,
        completed: true,
    };
    match service.update_memo(7, update) {
        Err(AppError::NotFound(text)) => assert_eq!(text, expected),
        other => panic!("expected not found, got {:?}", other),
    }
    match service.patch_memo(7, empty_patch()) {
        Err(AppError::NotFound(text)) => assert_eq!(text, expected),
        other => panic!("expected not found, got {:?}", other),
    }
    match service.toggle_complete(7) {
        Err(AppError::NotFound(text)) => assert_eq!(text, expected),
        other => panic!("expected not found, got {:?}", other),
    }
    match service.get_memo_by_id(7) {
        Err(AppError::NotFound(text)) => assert_eq!(text, expected),
        other => panic!("expected not found, got {:?}", other),
    }
}

#[test]
fn not_found_message_spells_the_identifier_as_a_uuid() {
    let service = setup_test_service();
    let id: u128 = 0x0123_4567_89ab_cdef_fedc_ba98_7654_3210;
    match service.get_memo_by_id(id) {
        Err(AppError::NotFound(text)) => {
            assert_eq!(text, "Memo with id 01234567-89ab-cdef-fedc-ba9876543210 not found")
        }
        other => panic!("expected not found, got {:?}", other),
    }
}

#[test]
fn empty_title_is_refused_and_nothing_is_stored() {
    let mut service = setup_test_service();
    match service.create_memo(create_dto("", None, 5)) {
        Err(AppError::Validation(text)) => assert_eq!(
            text,
            "Validation failed: title: Title must be between 1 and 200 characters"
        ),
        other => panic!("expected a validation error, got {:?}", other),
    }
    assert_eq!(service.store().len(), 0);
}

#[test]
fn title_and_description_limits_are_inclusive() {
    let mut service = setup_test_service();
    let longest_title = "t".repeat(200);
    let longest_description = "d".repeat(1000);
    assert!(service
        .create_memo(create_dto(&longest_title, Some(&longest_description), 5))
        .is_ok());
    let too_long_title = "t".repeat(201);
    assert!(matches!(
        service.create_memo(create_dto(&too_long_title, None, 5)),
        Err(AppError::Validation(_))
    ));
    let too_long_description = "d".repeat(1001);
    match service.create_memo(create_dto("ok", Some(&too_long_description), 5)) {
        Err(AppError::Validation(text)) => assert_eq!(
            text,
            "Validation failed: description: Description must not exceed 1000 characters"
        ),
        other => panic!("expected a validation error, got {:?}", other),
    }
    match service.create_memo(create_dto("", Some(&too_long_description), 5)) {
        Err(AppError::Validation(text)) => assert_eq!(
            text,
            "Validation failed: title: Title must be between 1 and 200 characters\ndescription: Description must not exceed 1000 characters"
        ),
        other => panic!("expected a validation error, got {:?}", other),
    }
    assert_eq!(service.store().len(), 1);
}

#[test]
fn title_length_counts_characters_not_bytes() {
    let mut service = setup_test_service();
    let title = "é".repeat(200);
    assert_eq!(title.len(), 400);
    assert!(service.create_memo(create_dto(&title, None, 5)).is_ok());
}

#[test]
fn taken_identifier_is_a_store_failure() {
    let mut service = setup_test_service();
    service.create_memo_with(1, 100, create_dto("A", None, 5)).unwrap();
    match service.create_memo_with(1, 200, create_dto("B", None, 5)) {
        Err(AppError::Database(_)) => {}
        other => panic!("expected a store failure, got {:?}", other),
    }
    assert_eq!(service.store().len(), 1);
}

#[test]
fn create_patch_delete_get_scenario() {
    let mut service = setup_test_service();
    let t = now();
    let created = service.create_memo(create_dto("A", None, t)).unwrap();
    assert_eq!(created.title, "A");
    assert!(!created.completed);
    assert_eq!(created.date_to, t);

    let patch = PatchMemoDto {
        title: Some("B".to_string()),
        description: None,
        date_to: None,
        completed: None,
    };
    let patched = service.patch_memo(created.id, patch).unwrap();
    assert_eq!(patched.id, created.id);
    assert_eq!(patched.title, "B");
    assert_eq!(patched.description, created.description);
    assert!(!patched.completed);

    assert!(service.delete_memo(created.id).is_ok());
    assert!(matches!(service.get_memo_by_id(created.id), Err(AppError::NotFound(_))));
}
