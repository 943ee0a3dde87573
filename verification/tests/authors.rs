use scaffold::author::{get_author_email, ConfigItem};
use scaffold::plan::name_of;
use scaffold::project::AuthorInfo;

fn entry(name: &str, value: &str) -> ConfigItem {
    ConfigItem::Read { name: Some(name.to_string()), value: Some(value.to_string()) }
}

fn found(items: Vec<ConfigItem>) -> Option<(String, String)> {
    get_author_email(&Some(items)).map(|a| (a.name, a.email))
}

fn pair(name: &str, email: &str) -> Option<(String, String)> {
    Some((name.to_string(), email.to_string()))
}

#[test]
fn author_from_name_and_email() {
    let items = vec![entry("user.name", "Ada"), entry("user.email", "ada@example.org")];
    assert_eq!(found(items), pair("Ada", "ada@example.org"));
}

#[test]
fn author_in_any_order_among_other_entries() {
    let items = vec![
        entry("user.signingkey", "ABCD"),
        entry("user.email", "ada@example.org"),
        entry("user.useconfigonly", "true"),
        entry("user.name", "Ada"),
    ];
    assert_eq!(found(items), pair("Ada", "ada@example.org"));
}

#[test]
fn author_takes_last_value_of_each() {
    let items = vec![
        entry("user.name", "First"),
        entry("user.email", "first@example.org"),
        entry("user.name", "Second"),
        entry("user.email", "second@example.org"),
        entry("user.name", "Third"),
    ];
    assert_eq!(found(items), pair("Third", "second@example.org"));
}

#[test]
fn author_absent_without_configuration() {
    assert!(get_author_email(&None).is_none());
}

#[test]
fn author_absent_when_a_value_is_missing() {
    assert_eq!(found(vec![]), None);
    assert_eq!(found(vec![entry("user.name", "Ada")]), None);
    assert_eq!(found(vec![entry("user.email", "ada@example.org")]), None);
    assert_eq!(found(vec![entry("user.Name", "Ada"), entry("user.email", "a@b")]), None);
    assert_eq!(found(vec![entry("user.name ", "Ada"), entry("user.email", "a@b")]), None);
}

#[test]
fn author_absent_when_any_entry_is_unusable() {
    let good = || vec![entry("user.name", "Ada"), entry("user.email", "ada@example.org")];
    let mut items = good();
    items.push(ConfigItem::Failed);
    assert_eq!(found(items), None);
    let mut items = good();
    items.insert(0, ConfigItem::Read { name: None, value: Some("x".to_string()) });
    assert_eq!(found(items), None);
    let mut items = good();
    items.insert(1, ConfigItem::Read { name: Some("user.other".to_string()), value: None });
    assert_eq!(found(items), None);
    let mut items = good();
    items.push(ConfigItem::Read { name: None, value: None });
    assert_eq!(found(items), None);
}

#[test]
fn author_values_may_be_empty() {
    assert_eq!(found(vec![entry("user.name", ""), entry("user.email", "")]), pair("", ""));
}

#[test]
fn author_name_alone() {
    let info = AuthorInfo { name: "Ada".to_string(), email: "ada@example.org".to_string() };
    assert_eq!(name_of(&Some(info)), Some("Ada".to_string()));
    assert_eq!(name_of(&None), None);
}
