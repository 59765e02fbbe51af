use appinsights::telemetry::{ContextTags, Properties};

#[test]
fn it_updates_example_tags() {
    let mut tags = ContextTags::default();

    tags.insert("foo".into(), "foo".into());
    tags.insert("bar".into(), "bar".into());

    assert_eq!(tags.get("foo").map(|v| v.as_str()), Some("foo"));
    assert_eq!(tags.get("bar").map(|v| v.as_str()), Some("bar"));
}

#[test]
fn it_updates_example_tags_even_when_example_shared() {
    let mut tags = ContextTags::default();

    tags.insert("foo".into(), "foo".into());

    assert_eq!(tags.get("foo").map(|v| v.as_str()), Some("foo"));
}

#[test]
fn well_known_tags_read_back_what_was_set() {
    let mut tags = ContextTags::default();
    tags.device_mut().set_id("device-1".into());
    tags.device_mut().set_type("PC".into());
    tags.cloud_mut().set_role("frontend".into());
    tags.operation_mut().set_parent_id("parent".into());

    assert_eq!(tags.device().id(), Some("device-1"));
    assert_eq!(tags.device().type_(), Some("PC"));
    assert_eq!(tags.device().locale(), None);
    assert_eq!(tags.cloud().role(), Some("frontend"));
    assert_eq!(tags.operation().parent_id(), Some("parent"));
    assert_eq!(tags.get("ai.device.id").map(|v| v.as_str()), Some("device-1"));
    assert_eq!(tags.get("ai.cloud.role").map(|v| v.as_str()), Some("frontend"));
    assert_eq!(tags.len(), 4);
}

#[test]
fn setting_a_tag_twice_keeps_the_last_value() {
    let mut tags = ContextTags::default();
    assert_eq!(tags.insert("ai.user.id".into(), "first".into()), None);
    assert_eq!(tags.insert("ai.user.id".into(), "second".into()), Some("first".to_string()));
    assert_eq!(tags.user().id(), Some("second"));
    assert_eq!(tags.len(), 1);
}

#[test]
fn combine_overrides_tags_from_context() {
    let mut context = ContextTags::default();
    context.insert("test".into(), "ok".into());
    context.insert("no-write".into(), "fail".into());

    let mut telemetry = ContextTags::default();
    telemetry.insert("no-write".into(), "ok".into());

    let combined = ContextTags::combine(context, telemetry);

    assert_eq!(combined.len(), 2);
    assert_eq!(combined.get("test").map(|v| v.as_str()), Some("ok"));
    assert_eq!(combined.get("no-write").map(|v| v.as_str()), Some("ok"));
}

#[test]
fn combine_overrides_properties_from_context() {
    let mut context = Properties::default();
    context.insert("test".into(), "ok".into());
    context.insert("no-write".into(), "fail".into());

    let mut telemetry = Properties::default();
    telemetry.insert("no-write".into(), "ok".into());

    let combined = Properties::combine(context, telemetry);

    assert_eq!(combined.len(), 2);
    assert_eq!(combined.get("test").map(|v| v.as_str()), Some("ok"));
    assert_eq!(combined.get("no-write").map(|v| v.as_str()), Some("ok"));
    assert!(!combined.contains_key("missing"));
}

#[test]
fn empty_bags_combine_to_an_empty_bag() {
    let combined = Properties::combine(Properties::default(), Properties::default());
    assert!(combined.is_empty());
    assert!(combined.entries().is_empty());
}

#[test]
fn properties_count_each_key_once() {
    let mut properties = Properties::default();
    properties.insert("name".into(), "value".into());
    properties.insert("name".into(), "other".into());

    assert_eq!(properties.len(), 1);
    assert_eq!(properties.entries().len(), 1);
    assert_eq!(properties.entries()[0], ("name".to_string(), "other".to_string()));
}

#[test]
fn entries_come_in_key_order() {
    let mut tags = ContextTags::default();
    tags.insert("zeta".into(), "1".into());
    tags.insert("alpha".into(), "2".into());
    tags.insert("ai.user.id".into(), "3".into());
    tags.insert("Beta".into(), "4".into());
    tags.insert("alp".into(), "5".into());
    tags.insert("alpha".into(), "6".into());

    let keys: Vec<&str> = tags.entries().iter().map(|(k, _)| k.as_str()).collect();
    assert_eq!(keys, vec!["Beta", "ai.user.id", "alp", "alpha", "zeta"]);
    assert_eq!(tags.get("alpha").map(|v| v.as_str()), Some("6"));
}

#[test]
fn combined_properties_come_in_key_order() {
    let mut context = Properties::default();
    context.insert("test".into(), "ok".into());
    context.insert("no-write".into(), "fail".into());
    let mut telemetry = Properties::default();
    telemetry.insert("no-write".into(), "ok".into());
    telemetry.insert("extra".into(), "é".into());

    let combined = Properties::combine(context, telemetry);
    let entries: Vec<(String, String)> = combined.entries().clone();
    assert_eq!(
        entries,
        vec![
            ("extra".to_string(), "é".to_string()),
            ("no-write".to_string(), "ok".to_string()),
            ("test".to_string(), "ok".to_string()),
        ]
    );
}

#[test]
fn bags_can_be_cloned_and_printed() {
    let mut properties = Properties::default();
    properties.insert("name".into(), "value".into());
    let copy = properties.clone();
    assert_eq!(copy.get("name").map(|v| v.as_str()), Some("value"));
    assert!(format!("{:?}", copy).contains("name"));

    let mut tags = ContextTags::default();
    tags.insert("ai.device.id".into(), "d".into());
    let copy = tags.clone();
    assert_eq!(copy.device().id(), Some("d"));
    assert!(format!("{:?}", copy).contains("ai.device.id"));
}

#[test]
fn keys_order_by_their_utf8_bytes() {
    let mut properties = Properties::default();
    properties.insert("é".into(), "1".into());
    properties.insert("z".into(), "2".into());
    properties.insert("Z".into(), "3".into());
    let keys: Vec<&str> = properties.entries().iter().map(|(k, _)| k.as_str()).collect();
    assert_eq!(keys, vec!["Z", "z", "é"]);
}

#[test]
fn removing_a_key_gives_back_its_value() {
    let mut properties = Properties::default();
    properties.insert("a".into(), "1".into());
    properties.insert("b".into(), "2".into());
    properties.insert("c".into(), "3".into());

    assert_eq!(properties.remove("b"), Some("2".to_string()));
    assert_eq!(properties.remove("b"), None);
    assert_eq!(properties.remove("missing"), None);
    assert_eq!(properties.len(), 2);
    let keys: Vec<&str> = properties.entries().iter().map(|(k, _)| k.as_str()).collect();
    assert_eq!(keys, vec!["a", "c"]);

    let mut tags = ContextTags::default();
    tags.device_mut().set_id("d".into());
    assert_eq!(tags.remove("ai.device.id"), Some("d".to_string()));
    assert_eq!(tags.device().id(), None);
    assert!(tags.is_empty());
}
