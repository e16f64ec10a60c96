use restic_rs::json::{parse_json, Json, Member};
use restic_rs::snapshots::{snapshot_from_json, snapshots_from_json, Snapshot, SnapshotError};

const TWO: &str = r#"[
  {
    "time": "2023-04-01T10:00:00.123456789+02:00",
    "tree": "aaaa1111",
    "paths": ["/home", "/etc"],
    "hostname": "alpha",
    "username": "root",
    "excludes": ["*.tmp", "/home/cache"],
    "uid": 0,
    "id": "0123456789abcdef",
    "short_id": "01234567"
  },
  {
    "time": "2023-04-02T10:00:00Z",
    "parent": "0123456789abcdef",
    "tree": "bbbb2222",
    "paths": ["/home"],
    "hostname": "beta",
    "username": "backup",
    "id": "fedcba9876543210",
    "short_id": "fedcba98"
  }
]"#;

fn strings(items: &[&str]) -> Vec<String> {
    items.iter().map(|s| s.to_string()).collect()
}

fn object(members: Vec<(&str, Json)>) -> Json {
    Json::Object(
        members.into_iter().map(|(key, value)| Member { key: key.to_string(), value }).collect(),
    )
}

fn text(value: &str) -> Json {
    Json::Text(value.to_string())
}

fn list(items: &[&str]) -> Json {
    Json::Array(items.iter().map(|item| text(item)).collect())
}

fn full_snapshot() -> Vec<(&'static str, Json)> {
    vec![
        ("time", text("t")),
        ("tree", text("tr")),
        ("paths", list(&["/p"])),
        ("hostname", text("h")),
        ("username", text("u")),
        ("id", text("i")),
        ("short_id", text("s")),
    ]
}

fn without(key: &str) -> Json {
    object(full_snapshot().into_iter().filter(|(k, _)| *k != key).collect())
}

fn with(key: &'static str, value: Json) -> Json {
    let mut members: Vec<(&str, Json)> =
        full_snapshot().into_iter().filter(|(k, _)| *k != key).collect();
    members.push((key, value));
    object(members)
}

#[test]
fn two_snapshot_objects_yield_two_records_in_order() {
    let snapshots = Snapshot::from_string(TWO.to_string()).expect("the listing is well formed");
    assert_eq!(
        snapshots,
        vec![
            Snapshot {
                time: "2023-04-01T10:00:00.123456789+02:00".to_string(),
                tree: "aaaa1111".to_string(),
                paths: strings(&["/home", "/etc"]),
                hostname: "alpha".to_string(),
                username: "root".to_string(),
                excludes: Some(strings(&["*.tmp", "/home/cache"])),
                id: "0123456789abcdef".to_string(),
                short_id: "01234567".to_string(),
            },
            Snapshot {
                time: "2023-04-02T10:00:00Z".to_string(),
                tree: "bbbb2222".to_string(),
                paths: strings(&["/home"]),
                hostname: "beta".to_string(),
                username: "backup".to_string(),
                excludes: None,
                id: "fedcba9876543210".to_string(),
                short_id: "fedcba98".to_string(),
            },
        ]
    );
}

#[test]
fn text_that_is_not_json_is_refused() {
    match Snapshot::from_string("not json".to_string()) {
        Err(SnapshotError::NotJson(message)) => assert!(!message.is_empty()),
        other => panic!("unexpected: {:?}", other),
    }
    assert!(matches!(Snapshot::from_string(String::new()), Err(SnapshotError::NotJson(_))));
    assert!(matches!(
        Snapshot::from_string("[{\"time\": ".to_string()),
        Err(SnapshotError::NotJson(_))
    ));
}

#[test]
fn an_empty_array_lists_no_snapshot() {
    assert_eq!(Snapshot::from_string("[]".to_string()), Ok(Vec::new()));
    assert_eq!(Snapshot::from_string("  [ ]\n".to_string()), Ok(Vec::new()));
}

#[test]
fn json_of_another_shape_is_refused() {
    for input in ["{}", "null", "\"[]\"", "17", "[1, 2]", "[[]]", "[{}]", "[null]"] {
        assert_eq!(
            Snapshot::from_string(input.to_string()),
            Err(SnapshotError::UnexpectedShape),
            "input {}",
            input
        );
    }
}

#[test]
fn one_bad_item_refuses_the_whole_listing() {
    let broken = TWO.replace("\"tree\": \"bbbb2222\",", "");
    assert_eq!(Snapshot::from_string(broken), Err(SnapshotError::UnexpectedShape));
}

#[test]
fn escapes_are_decoded() {
    let input = r#"[{"time":"t","tree":"tr","paths":["/a b","/é\n"],"hostname":"h\"q","username":"u","excludes":null,"id":"i","short_id":"s"}]"#;
    let snapshots = Snapshot::from_string(input.to_string()).unwrap();
    assert_eq!(snapshots.len(), 1);
    assert_eq!(snapshots[0].paths, strings(&["/a b", "/\u{e9}\n"]));
    assert_eq!(snapshots[0].hostname, "h\"q");
    assert_eq!(snapshots[0].excludes, None);
}

#[test]
fn parsing_yields_the_document_and_not_the_text() {
    assert_eq!(parse_json("\"[]\"").unwrap(), text("[]"));
    assert_eq!(parse_json("[]").unwrap(), Json::Array(Vec::new()));
    assert_eq!(parse_json("null").unwrap(), Json::Null);
    assert_eq!(parse_json("true").unwrap(), Json::Bool(true));
    assert_eq!(parse_json("12").unwrap(), Json::Number("12".to_string()));
    assert_eq!(
        parse_json(r#"{"k": [false, {"n": null}]}"#).unwrap(),
        object(vec![("k", Json::Array(vec![Json::Bool(false), object(vec![("n", Json::Null)])]))])
    );
    let error = parse_json("{").unwrap_err();
    assert!(!error.message.is_empty());
}

#[test]
fn every_required_member_is_required() {
    assert!(snapshot_from_json(&object(full_snapshot())).is_some());
    for key in ["time", "tree", "paths", "hostname", "username", "id", "short_id"] {
        assert_eq!(snapshot_from_json(&without(key)), None, "without {}", key);
    }
}

#[test]
fn members_of_the_wrong_kind_are_refused() {
    for key in ["time", "tree", "hostname", "username", "id", "short_id"] {
        assert_eq!(snapshot_from_json(&with(key, Json::Null)), None, "null {}", key);
        assert_eq!(snapshot_from_json(&with(key, list(&["x"]))), None, "list {}", key);
        assert_eq!(
            snapshot_from_json(&with(key, Json::Number("1".to_string()))),
            None,
            "number {}",
            key
        );
    }
    assert_eq!(snapshot_from_json(&with("paths", text("/p"))), None);
    assert_eq!(snapshot_from_json(&with("paths", Json::Null)), None);
    assert_eq!(
        snapshot_from_json(&with("paths", Json::Array(vec![text("/p"), Json::Bool(true)]))),
        None
    );
    assert_eq!(snapshot_from_json(&with("excludes", text("x"))), None);
    assert_eq!(
        snapshot_from_json(&with("excludes", Json::Array(vec![Json::Null]))),
        None
    );
}

#[test]
fn excludes_may_be_missing_null_or_a_list() {
    let expected = |excludes: Option<Vec<String>>| {
        Some(Snapshot {
            time: "t".to_string(),
            tree: "tr".to_string(),
            paths: strings(&["/p"]),
            hostname: "h".to_string(),
            username: "u".to_string(),
            excludes,
            id: "i".to_string(),
            short_id: "s".to_string(),
        })
    };
    assert_eq!(snapshot_from_json(&object(full_snapshot())), expected(None));
    assert_eq!(snapshot_from_json(&with("excludes", Json::Null)), expected(None));
    assert_eq!(snapshot_from_json(&with("excludes", list(&[]))), expected(Some(Vec::new())));
    assert_eq!(
        snapshot_from_json(&with("excludes", list(&["a", "b"]))),
        expected(Some(strings(&["a", "b"])))
    );
}

#[test]
fn the_first_member_of_a_name_counts() {
    let mut members = full_snapshot();
    members.push(("time", text("later")));
    members.push(("extra", Json::Bool(true)));
    let snapshot = snapshot_from_json(&object(members)).unwrap();
    assert_eq!(snapshot.time, "t");
}

#[test]
fn a_document_that_is_no_array_lists_nothing() {
    assert_eq!(snapshots_from_json(&object(full_snapshot())), None);
    assert_eq!(snapshots_from_json(&Json::Null), None);
    assert_eq!(snapshots_from_json(&Json::Array(Vec::new())), Some(Vec::new()));
    let two = Json::Array(vec![object(full_snapshot()), with("short_id", text("other"))]);
    let listed = snapshots_from_json(&two).unwrap();
    assert_eq!(listed.len(), 2);
    assert_eq!(listed[0].short_id, "s");
    assert_eq!(listed[1].short_id, "other");
}
