use chrono::Utc;
use memo_core::dto::{CreateMemoDto, PaginationParams, PatchMemoDto, UpdateMemoDto};
use memo_core::repository::MemoRepository;
use memo_core::services::MemoService;
use memo_core::store::MemoStore;

#[test]
fn repository_layer_walkthrough() {
    let mut db = MemoStore::new();
    let test_date = Utc::now().timestamp_micros();

    let created = MemoRepository::create(
        &mut db,
        "Test Repository Memo".to_string(),
        Some("Testing repository CRUD operations".to_string()),
        test_date,
    )
    .unwrap();
    assert_eq!(created.title, "Test Repository Memo");
    assert!(!created.completed);

    let found = MemoRepository::find_by_id(&db, created.id).unwrap().unwrap();
    assert_eq!(found.title, "Test Repository Memo");

    let updated = MemoRepository::update(
        &mut db,
        created.id,
        "Updated Test Memo".to_string(),
        Some("Updated description".to_string()),
        test_date,
        true,
    )
    .unwrap();
    assert_eq!(updated.title, "Updated Test Memo");
    assert_eq!(updated.description, Some("Updated description".to_string()));
    assert!(updated.completed);
    assert_eq!(updated.created_at, created.created_at);

    let (all, total) = MemoRepository::find_all(&db, 10, 0, None, "created_at", "desc").unwrap();
    assert_eq!(all.len(), 1);
    assert_eq!(total, 1);

    let (completed, completed_total) =
        MemoRepository::find_all(&db, 10, 0, Some(true), "created_at", "desc").unwrap();
    assert_eq!(completed.len(), 1);
    assert_eq!(completed_total, 1);

    let deleted = MemoRepository::delete(&mut db, created.id).unwrap();
    assert!(deleted);
    assert_eq!(db.len(), 0);
}

#[test]
fn service_layer_walkthrough() {
    let mut service = MemoService::new(MemoStore::new());
    let test_date = Utc::now().timestamp_micros();

    let created = service
        .create_memo(CreateMemoDto {
            title: "Service Layer Test Memo".to_string(),
            description: Some("Testing service layer operations".to_string()),
            date_to: test_date,
        })
        .unwrap();
    assert_eq!(created.title, "Service Layer Test Memo");
    assert!(!created.completed);

    let found = service.get_memo_by_id(created.id).unwrap();
    assert_eq!(found.title, "Service Layer Test Memo");

    let updated = service
        .update_memo(
            created.id,
            UpdateMemoDto {
                title: "Updated Service Test Memo".to_string(),
                description: Some("Updated via service layer".to_string()),
                date_to: test_date,
                completed: true,
            },
        )
        .unwrap();
    assert_eq!(updated.title, "Updated Service Test Memo");
    assert_eq!(updated.description, Some("Updated via service layer".to_string()));
    assert!(updated.completed);

    let patched = service
        .patch_memo(
            created.id,
            PatchMemoDto {
                title: Some("Patched Title".to_string()),
                description: None,
                date_to: None,
                completed: None,
            },
        )
        .unwrap();
    assert_eq!(patched.title, "Patched Title");
    assert_eq!(patched.description, Some("Updated via service layer".to_string()));
    assert!(patched.completed);

    let toggled = service.toggle_complete(created.id).unwrap();
    assert!(!toggled.completed);

    let all = service
        .get_all_memos(PaginationParams {
            limit: Some(10),
            offset: Some(0),
            completed: None,
            sort_by: Some("created_at".to_string()),
            order: Some("desc".to_string()),
        })
        .unwrap();
    assert_eq!(all.data.len(), 1);
    assert_eq!(all.total, 1);

    let open = service
        .get_all_memos(PaginationParams {
            limit: Some(10),
            offset: Some(0),
            completed: Some(false),
            sort_by: Some("created_at".to_string()),
            order: Some("desc".to_string()),
        })
        .unwrap();
    assert_eq!(open.data.len(), 1);
    assert_eq!(open.total, 1);

    assert!(service.delete_memo(created.id).is_ok());
    assert_eq!(service.store().len(), 0);
}

#[test]
fn many_memos_are_listed_in_pages_without_gaps() {
    let mut service = MemoService::new(MemoStore::new());
    for i in 0..37u32 {
        let dto = CreateMemoDto {
            title: format!("memo {:02}", (i * 7) % 37),
            description: None,
            date_to: i64::from(i),
        };
        service.create_memo_with(u128::from(i), i64::from(1000 - i), dto).unwrap();
    }
    let mut seen = Vec::new();
    let mut offset = 0;
    loop {
        let page = service
            .get_all_memos(PaginationParams {
                limit: Some(10),
                offset: Some(offset),
                completed: None,
                sort_by: Some("title".to_string()),
                order: Some("asc".to_string()),
            })
            .unwrap();
        assert_eq!(page.total, 37);
        if page.data.is_empty() {
            break;
        }
        assert!(page.data.len() <= 10);
        for memo in &page.data {
            seen.push(memo.title.clone());
        }
        offset += 10;
    }
    assert_eq!(offset, 40);
    assert_eq!(seen.len(), 37);
    let expected: Vec<String> = (0..37).map(|i| format!("memo {:02}", i)).collect();
    assert_eq!(seen, expected);
}
