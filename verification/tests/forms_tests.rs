use memo_core::error::AppError;
use memo_core::forms::{check_form, parse_form_date, WebCreateMemoForm, WebUpdateMemoForm};
use memo_core::health::{HealthResponse, ReadyResponse};

#[test]
fn form_date_is_read_as_utc_minutes() {
    assert_eq!(parse_form_date("1970-01-01T00:00"), Some(0));
    assert_eq!(parse_form_date("1970-01-01T00:01"), Some(60_000_000));
    assert_eq!(parse_form_date("2001-09-09T01:46"), Some(999_999_960_000_000));
    assert_eq!(parse_form_date("1969-12-31T23:59"), Some(-60_000_000));
}

#[test]
fn form_date_outside_the_pattern_is_refused() {
    assert_eq!(parse_form_date(""), None);
    assert_eq!(parse_form_date("2024-01-01"), None);
    assert_eq!(parse_form_date("2024-01-01 10:00"), None);
    assert_eq!(parse_form_date("2024-01-01T10:00:00"), None);
    assert_eq!(parse_form_date("2024-13-01T10:00"), None);
    assert_eq!(parse_form_date("2024-02-30T10:00"), None);
    assert_eq!(parse_form_date("2024-01-01T24:00"), None);
    assert_eq!(parse_form_date("1970-01-01T00:00x"), None);
}

#[test]
fn create_form_becomes_a_creation() {
    let form = WebCreateMemoForm {
        title: "Web Created Memo".to_string(),
        description: Some("Test description".to_string()),
        date_to: "1970-01-02T00:00".to_string(),
    };
    let dto = form.to_dto().unwrap();
    assert_eq!(dto.title, "Web Created Memo");
    assert_eq!(dto.description, Some("Test description".to_string()));
    assert_eq!(dto.date_to, 86_400_000_000);
    let given = form.to_dto_with(Some(5)).unwrap();
    assert_eq!(given.date_to, 5);
}

#[test]
fn create_form_with_empty_title_is_refused() {
    let form = WebCreateMemoForm {
        title: "".to_string(),
        description: None,
        date_to: "1970-01-02T00:00".to_string(),
    };
    match form.to_dto() {
        Err(AppError::Validation(text)) => assert_eq!(
            text,
            "Validation failed: title: Title must be between 1 and 200 characters"
        ),
        other => panic!("expected a validation error, got {:?}", other),
    }
    let long = WebCreateMemoForm {
        title: "t".repeat(201),
        description: None,
        date_to: "not a date".to_string(),
    };
    match long.to_dto() {
        Err(AppError::Validation(text)) => assert_eq!(
            text,
            "Validation failed: title: Title must be between 1 and 200 characters"
        ),
        other => panic!("expected a validation error, got {:?}", other),
    }
}

#[test]
fn form_with_unreadable_date_is_refused() {
    let form = WebCreateMemoForm {
        title: "ok".to_string(),
        description: None,
        date_to: "tomorrow".to_string(),
    };
    match form.to_dto() {
        Err(AppError::Validation(text)) => {
            assert_eq!(text, "Invalid date format. Expected YYYY-MM-DDTHH:MM")
        }
        other => panic!("expected a validation error, got {:?}", other),
    }
    match check_form("ok", None) {
        Err(AppError::Validation(text)) => {
            assert_eq!(text, "Invalid date format. Expected YYYY-MM-DDTHH:MM")
        }
        other => panic!("expected a validation error, got {:?}", other),
    }
    assert!(matches!(check_form("ok", Some(7)), Ok(7)));
}

#[test]
fn update_form_is_completed_when_the_checkbox_sent_something() {
    let ticked = WebUpdateMemoForm {
        title: "Updated Web Title".to_string(),
        description: Some("Updated description".to_string()),
        date_to: "1970-01-01T01:00".to_string(),
        completed: Some("on".to_string()),
    };
    let dto = ticked.to_dto().unwrap();
    assert_eq!(dto.title, "Updated Web Title");
    assert_eq!(dto.description, Some("Updated description".to_string()));
    assert_eq!(dto.date_to, 3_600_000_000);
    assert!(dto.completed);

    let empty_text = WebUpdateMemoForm {
        title: "t".to_string(),
        description: None,
        date_to: "1970-01-01T01:00".to_string(),
        completed: Some("".to_string()),
    };
    assert!(empty_text.to_dto().unwrap().completed);

    let clear = WebUpdateMemoForm {
        title: "t".to_string(),
        description: None,
        date_to: "1970-01-01T01:00".to_string(),
        completed: None,
    };
    assert!(!clear.to_dto().unwrap().completed);
    assert!(clear.to_dto_with(None).is_err());
}

#[test]
fn health_answer_names_the_state_of_the_store() {
    let up = HealthResponse::new(true, "0.1.0".to_string(), 12);
    assert_eq!(up.status, "healthy");
    assert_eq!(up.database, "connected");
    assert_eq!(up.version, "0.1.0");
    assert_eq!(up.uptime_seconds, 12);
    let down = HealthResponse::new(false, "0.1.0".to_string(), 0);
    assert_eq!(down.status, "healthy");
    assert_eq!(down.database, "disconnected");
}

#[test]
fn readiness_follows_the_store() {
    let ready = ReadyResponse::new(true);
    assert!(ready.ready);
    assert_eq!(ready.status_code(), 200);
    let not_ready = ReadyResponse::new(false);
    assert!(!not_ready.ready);
    assert_eq!(not_ready.status_code(), 503);
}
