use rdm::cache::{resolve_activity, Activity, ActivityCache};
use rdm::error::AppExitCode;

fn test_activities() -> Vec<Activity> {
    vec![
        Activity { id: 1, name: "Development".to_string(), is_default: Some(true) },
        Activity { id: 2, name: "Design".to_string(), is_default: None },
        Activity { id: 3, name: "Testing".to_string(), is_default: None },
    ]
}

#[test]
fn test_cache_validity() {
    let cache = ActivityCache::new(test_activities());
    assert!(cache.is_valid());
}

#[test]
fn test_find_by_name() {
    let cache = ActivityCache::new(test_activities());
    let activity = cache.find_by_name("development").unwrap();
    assert_eq!(activity.id, 1);
}

#[test]
fn test_find_by_id() {
    let cache = ActivityCache::new(test_activities());
    let activity = cache.find_by_id(2).unwrap();
    assert_eq!(activity.name, "Design");
}

#[test]
fn test_resolve_by_id() {
    let cache = ActivityCache::new(test_activities());
    let activity = cache.resolve("1").unwrap();
    assert_eq!(activity.name, "Development");
}

#[test]
fn test_resolve_by_name() {
    let cache = ActivityCache::new(test_activities());
    let activity = cache.resolve("Testing").unwrap();
    assert_eq!(activity.id, 3);
}

#[test]
fn numeric_token_prefers_id_over_name() {
    let cache = ActivityCache::new_at(
        vec![
            Activity { id: 7, name: "Planning".to_string(), is_default: None },
            Activity { id: 8, name: "7".to_string(), is_default: None },
        ],
        1000,
    );
    assert_eq!(cache.resolve("7").unwrap().id, 7);
    assert_eq!(cache.resolve("8").unwrap().name, "7");
}

#[test]
fn numeric_name_found_when_no_id_matches() {
    let cache = ActivityCache::new_at(
        vec![Activity { id: 1, name: "2024".to_string(), is_default: None }],
        0,
    );
    assert_eq!(cache.resolve("2024").unwrap().id, 1);
}

#[test]
fn name_lookup_ignores_case() {
    let cache = ActivityCache::new_at(test_activities(), 0);
    assert_eq!(cache.resolve("tEsTiNg").unwrap().id, 3);
    assert!(cache.resolve("Meeting").is_none());
    assert!(cache.find_by_name("DESIGNS").is_none());
}

#[test]
fn unknown_activity_is_a_validation_error() {
    let cache = ActivityCache::new_at(test_activities(), 0);
    let err = resolve_activity(&cache, "Meeting").unwrap_err();
    assert_eq!(err.exit_code(), AppExitCode::Validation);
    assert_eq!(err.code(), "VALIDATION_ERROR");
    assert_eq!(err.display_text(), "Validation error: Unknown activity: 'Meeting'");
    assert_eq!(err.hint(), Some("Use `rdm time activities list` to see available activities."));
    assert_eq!(resolve_activity(&cache, "design").unwrap(), 2);
    assert_eq!(resolve_activity(&cache, "+3").unwrap(), 3);
}

#[test]
fn validity_ends_after_a_day() {
    let cache = ActivityCache::new_at(test_activities(), 1_000_000);
    assert!(cache.is_valid_at(1_000_000));
    assert!(cache.is_valid_at(1_000_000 + 86_399));
    assert!(!cache.is_valid_at(1_000_000 + 86_400));
    assert!(cache.is_valid_at(5));
}

#[test]
fn age_text_by_unit() {
    let cache = ActivityCache::new_at(Vec::new(), 10_000);
    assert_eq!(cache.age_string_at(10_042), "42s ago");
    assert_eq!(cache.age_string_at(10_000 + 125), "2m ago");
    assert_eq!(cache.age_string_at(10_000 + 7_300), "2h ago");
    assert_eq!(cache.age_string_at(9_000), "0s ago");
}
