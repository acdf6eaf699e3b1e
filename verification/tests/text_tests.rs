use memo_core::memo::Memo;
use memo_core::query::{row_ascends, row_comes_before, SortField, SortOrder};
use memo_core::store::{row_passes, MemoStore};
use memo_core::text::{text_before, text_equal};

#[test]
fn lexical_order_on_text() {
    assert!(text_before("", "a"));
    assert!(!text_before("a", ""));
    assert!(!text_before("", ""));
    assert!(text_before("a", "b"));
    assert!(!text_before("b", "a"));
    assert!(text_before("ab", "abc"));
    assert!(!text_before("abc", "ab"));
    assert!(!text_before("abc", "abc"));
    assert!(text_before("Z", "a"));
    assert!(text_before("z", "é"));
    assert!(text_before("é", "日"));
    assert!(text_before("abd", "abe"));
}

#[test]
fn lexical_order_agrees_with_the_order_of_str() {
    let samples = ["", "a", "A", "ab", "abc", "b", "é", "日本", "zz", "a b", "a\u{10FFFF}"];
    for x in samples {
        for y in samples {
            assert_eq!(text_before(x, y), x < y, "{:?} < {:?}", x, y);
            assert_eq!(text_equal(x, y), x == y, "{:?} == {:?}", x, y);
        }
    }
}

fn memo(id: u128, title: &str, completed: bool, created_at: i64) -> Memo {
    Memo {
        id,
        title: title.to_string(),
        description: None,
        date_to: 0,
        completed,
        created_at,
        updated_at: created_at,
    }
}

#[test]
fn rows_are_ordered_by_key_then_identifier() {
    let a = memo(1, "x", false, 5);
    let b = memo(2, "x", true, 5);
    assert!(row_ascends(SortField::Title, &a, &b));
    assert!(!row_ascends(SortField::Title, &b, &a));
    assert!(row_ascends(SortField::Completed, &a, &b));
    assert!(!row_ascends(SortField::Completed, &b, &a));
    assert!(row_ascends(SortField::CreatedAt, &a, &b));
    assert!(!row_ascends(SortField::CreatedAt, &a, &a));
    assert!(row_comes_before(SortField::CreatedAt, SortOrder::Desc, &b, &a));
    assert!(!row_comes_before(SortField::CreatedAt, SortOrder::Desc, &a, &b));
    let later = memo(0, "a", false, 6);
    assert!(row_ascends(SortField::CreatedAt, &a, &later));
    assert!(row_ascends(SortField::Title, &later, &a));
}

#[test]
fn filter_passes_matching_rows() {
    let open = memo(1, "x", false, 5);
    let done = memo(2, "x", true, 5);
    assert!(row_passes(None, &open));
    assert!(row_passes(None, &done));
    assert!(row_passes(Some(false), &open));
    assert!(!row_passes(Some(true), &open));
    assert!(row_passes(Some(true), &done));
    assert!(!row_passes(Some(false), &done));
}

#[test]
fn store_operations() {
    let mut store = MemoStore::new();
    assert_eq!(store.len(), 0);
    assert!(store.insert(memo(1, "a", false, 1)).is_ok());
    assert!(store.insert(memo(2, "b", true, 2)).is_ok());
    assert!(store.insert(memo(1, "c", false, 3)).is_err());
    assert_eq!(store.len(), 2);
    assert_eq!(store.one(1).unwrap().title, "a");
    assert!(store.one(3).is_none());
    assert!(store.replace(memo(2, "B", false, 9)));
    assert!(!store.replace(memo(3, "x", false, 9)));
    assert_eq!(store.one(2).unwrap().title, "B");
    assert_eq!(store.count(None), 2);
    assert_eq!(store.count(Some(true)), 0);
    assert_eq!(store.count(Some(false)), 2);
    let page = store.all(None, SortField::Title, SortOrder::Asc, 0, 10);
    let titles: Vec<&str> = page.iter().map(|m| m.title.as_str()).collect();
    assert_eq!(titles, vec!["B", "a"]);
    assert!(store.delete(1));
    assert!(!store.delete(1));
    assert_eq!(store.len(), 1);
}
