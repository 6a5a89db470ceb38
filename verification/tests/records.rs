use issues_service::record::{copy_text, copy_texts, has_text, meets, Patch};
use issues_service::search::{bound, id_filter};

#[test]
fn texts_are_copied_and_found() {
    let ids = vec!["a".to_string(), "b".to_string(), String::new()];
    assert_eq!(copy_texts(&ids), ids);
    assert_eq!(copy_texts(&vec![]), Vec::<String>::new());
    assert!(has_text(&ids, &"b".to_string()));
    assert!(has_text(&ids, &String::new()));
    assert!(!has_text(&ids, &"c".to_string()));
    assert!(!has_text(&vec![], &"a".to_string()));
    assert_eq!(copy_text(&Some("x".to_string())), Some("x".to_string()));
    assert_eq!(copy_text(&None), None);
}

#[test]
fn absent_predicate_constrains_nothing() {
    assert!(meets(&None, &"b1".to_string()));
    assert!(meets(&Some("b1".to_string()), &"b1".to_string()));
    assert!(!meets(&Some("b1".to_string()), &"b2".to_string()));
}

#[test]
fn patch_keeps_clears_or_replaces() {
    let current = Some("old".to_string());
    assert_eq!(Patch::Keep.apply(&current), Some("old".to_string()));
    assert_eq!(Patch::Keep.apply(&None), None);
    assert_eq!(Patch::Clear.apply(&current), None);
    assert_eq!(Patch::Replace("new".to_string()).apply(&current), Some("new".to_string()));
    assert_eq!(Patch::Replace("new".to_string()).apply(&None), Some("new".to_string()));

    assert_eq!(Patch::Keep.value(), None);
    assert_eq!(Patch::Clear.value(), None);
    assert_eq!(Patch::Replace("new".to_string()).value(), Some("new".to_string()));

    assert!(Patch::Keep.is_keep());
    assert!(!Patch::Clear.is_keep());
    assert!(!Patch::Replace(String::new()).is_keep());
    assert_eq!(Patch::Replace("x".to_string()).duplicate(), Patch::Replace("x".to_string()));
    assert_eq!(Patch::Clear.duplicate(), Patch::Clear);
}

#[test]
fn empty_id_list_is_no_id_filter() {
    assert_eq!(id_filter(&vec![]), None);
    assert_eq!(id_filter(&vec!["a".to_string()]), Some(vec!["a".to_string()]));
}

#[test]
fn row_counts_must_fit_the_store() {
    assert_eq!(bound(None), Some(None));
    assert_eq!(bound(Some(0)), Some(Some(0)));
    assert_eq!(bound(Some(i64::MAX as u64)), Some(Some(i64::MAX)));
    assert_eq!(bound(Some(i64::MAX as u64 + 1)), None);
    assert_eq!(bound(Some(u64::MAX)), None);
}
