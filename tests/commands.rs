use rdm::commands::{
    check_time_target, issue_query, parse_custom_field_values, parse_custom_fields, time_query,
    GroupByField, IssueListArgs, IssueQuery, TimeListArgs,
};
use rdm::grouping::{group_key, group_positions, text_lt};
use rdm::models::{display_value, CurrentUser, CustomFieldValue, FieldItem, FieldValue, UserDetails, UserStatus};
use rdm::requests::{IssueFilters, TimeEntryFilters};

#[test]
fn custom_field_arguments() {
    let args = vec!["5=value".to_string(), "12=a=b".to_string(), "3=".to_string()];
    let parsed = parse_custom_fields(&args).unwrap();
    assert_eq!(
        parsed,
        vec![(5, "value".to_string()), (12, "a=b".to_string()), (3, String::new())]
    );
    let err = parse_custom_fields(&["novalue".to_string()]).unwrap_err();
    assert_eq!(err.display_text(), "Validation error: Invalid custom field format: 'novalue'");
    let err = parse_custom_fields(&["x=1".to_string()]).unwrap_err();
    assert_eq!(err.display_text(), "Validation error: Invalid custom field ID: 'x'");
    assert!(parse_custom_field_values(&[]).unwrap().is_none());
    let vals = parse_custom_field_values(&["7=on".to_string()]).unwrap().unwrap();
    assert_eq!((vals[0].id, vals[0].value.as_str()), (7, "on"));
    let v = CustomFieldValue::from_tuples(vec![(1, "a".to_string()), (2, "b".to_string())]);
    assert_eq!((v[1].id, v[1].value.as_str()), (2, "b"));
    assert_eq!(CustomFieldValue::new(4, "z".to_string()).id, 4);
}

#[test]
fn group_by_names() {
    assert_eq!(GroupByField::parse("USER"), Some(GroupByField::User));
    assert_eq!(GroupByField::parse("date"), Some(GroupByField::SpentOn));
    assert_eq!(GroupByField::parse("spent_on"), Some(GroupByField::SpentOn));
    assert_eq!(GroupByField::parse("cf_12"), Some(GroupByField::CustomField(12)));
    assert_eq!(GroupByField::parse("cf_x"), None);
    assert_eq!(GroupByField::parse("colour"), None);
    assert_eq!(GroupByField::CustomField(12).display_name(), "Custom Field 12");
    assert_eq!(GroupByField::SpentOn.display_name(), "Date");
    assert_eq!(GroupByField::Activity.display_name(), "Activity");
}

#[test]
fn time_target_needs_exactly_one() {
    assert!(check_time_target(None, None).is_err());
    assert!(check_time_target(Some(1), Some(2)).is_err());
    assert!(check_time_target(Some(1), None).is_ok());
    assert!(check_time_target(None, Some(3)).is_ok());
}

fn issue_args() -> IssueListArgs {
    IssueListArgs {
        project: Some("web".into()),
        status: Some("open".into()),
        assigned_to: None,
        author: None,
        tracker: None,
        subject: None,
        search: None,
        custom_fields: vec!["2=x".into()],
        limit: 10,
        offset: 20,
    }
}

#[test]
fn issue_list_request() {
    match issue_query(&issue_args()).unwrap() {
        IssueQuery::List(f) => {
            assert_eq!(f.project, Some("web".to_string()));
            assert_eq!(f.custom_fields, vec![(2, "x".to_string())]);
            assert_eq!((f.limit, f.offset), (10, 20));
        }
        _ => panic!("expected a listing"),
    }
    let mut a = issue_args();
    a.search = Some("crash".into());
    assert!(matches!(issue_query(&a).unwrap(), IssueQuery::Search { .. }));
    a.custom_fields = vec!["bad".into()];
    assert!(issue_query(&a).is_err());
}

#[test]
fn time_list_request() {
    let args = TimeListArgs {
        project: None,
        issue: Some(9),
        user: Some("me".into()),
        from: None,
        to: None,
        custom_fields: vec![],
        group_by: Some("activity".into()),
        limit: 25,
        offset: 0,
    };
    let (f, g) = time_query(&args).unwrap();
    assert_eq!(f.issue, Some(9));
    assert_eq!(g, Some(GroupByField::Activity));
    let mut bad = args.clone();
    bad.group_by = Some("weekday".into());
    let err = time_query(&bad).unwrap_err();
    assert_eq!(err.display_text(), "Validation error: Invalid group-by field: 'weekday'");
}

#[test]
fn user_fields() {
    let u = UserDetails {
        id: 1,
        login: "jd".into(),
        firstname: "Jane".into(),
        lastname: "Doe".into(),
        mail: None,
        created_on: None,
        last_login_on: None,
        status: Some(3),
    };
    assert_eq!(u.full_name(), "Jane Doe");
    assert_eq!(u.status_display(), "Locked");
    let mut v = u.clone();
    v.status = Some(9);
    assert_eq!(v.status_display(), "Unknown");
    assert_eq!(UserStatus::Registered.as_api_value(), 2);
    let c = CurrentUser {
        id: 1,
        login: "t".into(),
        firstname: "Test".into(),
        lastname: "User".into(),
        mail: None,
        admin: None,
        created_on: None,
        last_login_on: None,
    };
    assert_eq!(c.full_name(), "Test User");
    let f = IssueFilters::new();
    assert_eq!((f.limit, f.offset), (25, 0));
    let t = TimeEntryFilters::new();
    assert!(t.custom_fields.is_empty());
}

fn entry(activity: &str, issue: Option<u32>) -> rdm::grouping::EntryKeys {
    rdm::grouping::EntryKeys {
        user_name: None,
        project_name: Some("Web".to_string()),
        activity_name: activity.to_string(),
        issue_id: issue,
        spent_on: "2024-05-01".to_string(),
        custom_value: None,
    }
}

#[test]
fn grouped_listing_by_activity() {
    let entries = [entry("Dev", None), entry("QA", None), entry("Dev", None)];
    let hours = [1.0f64, 2.0, 0.5];
    let keys: Vec<String> = entries.iter().map(|e| group_key(GroupByField::Activity, e)).collect();
    let groups = group_positions(&keys);
    assert_eq!(groups.len(), 2);
    assert_eq!(groups[0].key, "Dev");
    assert_eq!(groups[0].members, vec![0, 2]);
    assert_eq!(groups[1].key, "QA");
    let subtotals: Vec<f64> =
        groups.iter().map(|g| g.members.iter().map(|&m| hours[m]).sum()).collect();
    assert_eq!(subtotals, vec![1.5, 2.0]);
    assert_eq!(subtotals.iter().sum::<f64>(), 3.5);
}

#[test]
fn group_keys_and_order() {
    assert_eq!(group_key(GroupByField::Issue, &entry("x", Some(12))), "#12");
    assert_eq!(group_key(GroupByField::Issue, &entry("x", None)), "No Issue");
    assert_eq!(group_key(GroupByField::User, &entry("x", None)), "Unknown");
    assert_eq!(group_key(GroupByField::Project, &entry("x", None)), "Web");
    assert_eq!(group_key(GroupByField::CustomField(3), &entry("x", None)), "-");
    assert_eq!(group_key(GroupByField::SpentOn, &entry("x", None)), "2024-05-01");
    let keys: Vec<String> = ["b", "a", "B", "é", "a", "ab"].iter().map(|s| s.to_string()).collect();
    let groups = group_positions(&keys);
    let order: Vec<&str> = groups.iter().map(|g| g.key.as_str()).collect();
    assert_eq!(order, vec!["B", "a", "ab", "b", "é"]);
    assert_eq!(groups[1].members, vec![1, 4]);
    assert!(text_lt("a", "ab") && !text_lt("ab", "a") && !text_lt("a", "a"));
    assert!(group_positions(&Vec::new()).is_empty());
}

#[test]
fn custom_field_errors_carry_hints() {
    let err = parse_custom_fields(&["5=a".to_string(), "oops".to_string(), "x=1".to_string()]).unwrap_err();
    assert_eq!(err.display_text(), "Validation error: Invalid custom field format: 'oops'");
    assert_eq!(err.hint(), Some("Use format: --cf 5=value"));
    let err = parse_custom_fields(&["abc=1=2".to_string()]).unwrap_err();
    assert_eq!(err.display_text(), "Validation error: Invalid custom field ID: 'abc'");
    assert_eq!(err.hint(), Some("Custom field ID must be a number, e.g., --cf 5=value"));
    let err = check_time_target(None, None).unwrap_err();
    assert_eq!(err.display_text(), "Validation error: Either --issue or --project is required");
    assert!(err.hint().unwrap().contains("--issue 123"));
}

#[test]
fn custom_field_values_display() {
    assert_eq!(display_value(&FieldValue::Null), "-");
    assert_eq!(display_value(&FieldValue::Text(String::new())), "-");
    assert_eq!(display_value(&FieldValue::Text("Blue".into())), "Blue");
    assert_eq!(display_value(&FieldValue::Number("3.5".into())), "3.5");
    assert_eq!(display_value(&FieldValue::Bool(true)), "Yes");
    assert_eq!(display_value(&FieldValue::Bool(false)), "No");
    assert_eq!(display_value(&FieldValue::List(vec![])), "-");
    assert_eq!(
        display_value(&FieldValue::List(vec![FieldItem::Text("a".into()), FieldItem::Json("2".into())])),
        "a, 2"
    );
    assert_eq!(display_value(&FieldValue::Object("{\"k\":1}".into())), "{\"k\":1}");
}
