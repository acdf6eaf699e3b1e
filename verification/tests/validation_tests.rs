use memo_core::dto::{
    CreateMemoDto, MemoResponseDto, PaginatedResponse, PaginationParams, PatchMemoDto, UpdateMemoDto,
};
use memo_core::memo::Memo;
use memo_core::flow::entities_to_dtos;
use memo_core::services::MemoService;
use memo_core::validation::{
    check_description, check_limit, check_memo_fields, check_page_fields, check_sort_by, check_title,
    Violation,
};

#[test]
fn title_bounds() {
    assert!(!check_title(""));
    assert!(check_title("a"));
    assert!(check_title(&"a".repeat(200)));
    assert!(!check_title(&"a".repeat(201)));
    assert!(check_title(&"日".repeat(200)));
    assert!(!check_title(&"日".repeat(201)));
}

#[test]
fn description_bounds() {
    assert!(check_description(""));
    assert!(check_description(&"a".repeat(1000)));
    assert!(!check_description(&"a".repeat(1001)));
}

#[test]
fn limit_bounds() {
    assert!(!check_limit(0));
    assert!(check_limit(1));
    assert!(check_limit(100));
    assert!(!check_limit(101));
}

#[test]
fn sort_by_bounds() {
    assert!(check_sort_by(""));
    assert!(check_sort_by(&"a".repeat(50)));
    assert!(!check_sort_by(&"a".repeat(51)));
}

#[test]
fn absent_fields_break_no_rule() {
    assert!(check_memo_fields(None, None).is_ok());
    assert!(check_page_fields(None, None).is_ok());
    let bad_title = check_memo_fields(Some(""), None).unwrap_err();
    assert_eq!(bad_title.violations, vec![Violation::TitleLength]);
    let long = "d".repeat(1001);
    let both = check_memo_fields(Some(""), Some(&long)).unwrap_err();
    assert_eq!(both.violations, vec![Violation::TitleLength, Violation::DescriptionLength]);
    let page = check_page_fields(Some(0), Some(&"s".repeat(51))).unwrap_err();
    assert_eq!(page.violations, vec![Violation::LimitRange, Violation::SortByLength]);
}

#[test]
fn dto_validation_follows_the_field_rules() {
    let create = CreateMemoDto { title: "".to_string(), description: None, date_to: 0 };
    assert_eq!(create.validate().unwrap_err().violations, vec![Violation::TitleLength]);
    let update = UpdateMemoDto {
        title: "ok".to_string(),
        description: Some("d".repeat(1001)),
        date_to: 0,
        completed: false,
    };
    assert_eq!(update.validate().unwrap_err().violations, vec![Violation::DescriptionLength]);
    let patch = PatchMemoDto { title: None, description: None, date_to: None, completed: None };
    assert!(patch.validate().is_ok());
    let params = PaginationParams {
        limit: Some(500),
        offset: Some(3),
        completed: None,
        sort_by: None,
        order: None,
    };
    assert_eq!(params.validate().unwrap_err().violations, vec![Violation::LimitRange]);
}

#[test]
fn default_params_are_the_first_page_newest_first() {
    let params = PaginationParams::default();
    assert_eq!(params.limit, Some(10));
    assert_eq!(params.offset, Some(0));
    assert_eq!(params.completed, None);
    assert_eq!(params.sort_by, Some("created_at".to_string()));
    assert_eq!(params.order, Some("desc".to_string()));
    assert!(params.validate().is_ok());
    assert!(params.validate_order().is_ok());
}

fn stored_memo() -> Memo {
    Memo {
        id: 3,
        title: "stored".to_string(),
        description: Some("kept".to_string()),
        date_to: 9,
        completed: true,
        created_at: 1,
        updated_at: 2,
    }
}

#[test]
fn merge_takes_named_fields_and_keeps_the_rest() {
    let existing = stored_memo();
    let nothing = PatchMemoDto { title: None, description: None, date_to: None, completed: None };
    let merged = nothing.merge(&existing);
    assert_eq!(merged.title, "stored");
    assert_eq!(merged.description, Some("kept".to_string()));
    assert_eq!(merged.date_to, 9);
    assert!(merged.completed);

    let all = PatchMemoDto {
        title: Some("new".to_string()),
        description: Some("other".to_string()),
        date_to: Some(10),
        completed: Some(false),
    };
    let merged = all.merge(&existing);
    assert_eq!(merged.title, "new");
    assert_eq!(merged.description, Some("other".to_string()));
    assert_eq!(merged.date_to, 10);
    assert!(!merged.completed);
}

#[test]
fn toggled_flips_only_the_flag() {
    let existing = stored_memo();
    let flipped = UpdateMemoDto::toggled(&existing);
    assert_eq!(flipped.title, "stored");
    assert_eq!(flipped.description, Some("kept".to_string()));
    assert_eq!(flipped.date_to, 9);
    assert!(!flipped.completed);
}

#[test]
fn entity_becomes_dto_field_by_field() {
    let dto = MemoService::entity_to_dto(stored_memo());
    assert_eq!(dto.id, 3);
    assert_eq!(dto.title, "stored");
    assert_eq!(dto.description, Some("kept".to_string()));
    assert_eq!(dto.date_to, 9);
    assert!(dto.completed);
    assert_eq!(dto.created_at, 1);
    assert_eq!(dto.updated_at, 2);
    let copy = dto.clone();
    assert_eq!(copy.title, dto.title);
    let same = MemoResponseDto::from_entity(stored_memo().clone());
    assert_eq!(same.updated_at, 2);
    let many = entities_to_dtos(vec![stored_memo(), stored_memo()]);
    assert_eq!(many.len(), 2);
    assert_eq!(many[1].title, "stored");
}

#[test]
fn paginated_response_holds_what_it_was_given() {
    let response = PaginatedResponse::new(vec![1u8, 2, 3], 40, 3, 6);
    assert_eq!(response.data, vec![1, 2, 3]);
    assert_eq!(response.total, 40);
    assert_eq!(response.limit, 3);
    assert_eq!(response.offset, 6);
}
