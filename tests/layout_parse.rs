use rlogout::layout::{
    button_from_members, layout_from_document, parse_layout, ButtonSpec, ConfigError,
    RequiredField,
};
use serde_json::Value;

const LAYOUT: &str = r#"[
  {"label": "lock", "action": "loginctl lock-session", "text": "Lock", "keybind": "l"},
  {"label": "shutdown", "action": "systemctl poweroff", "text": "Shutdown", "keybind": "s",
   "label_x_align": 0.25, "label_y_align": 1, "width": 200, "height": 100}
]"#;

#[test]
fn reads_buttons_in_order() {
    let b = parse_layout(LAYOUT).unwrap();
    assert_eq!(b.len(), 2);
    assert_eq!(b[0].identifier, "lock");
    assert_eq!(b[0].display_text, "Lock");
    assert_eq!(b[0].action, "loginctl lock-session");
    assert_eq!(b[0].keybind.as_deref(), Some("l"));
    assert!(b[0].label_x_align.is_none());
    assert!(b[0].width.is_none());
    assert_eq!(b[1].identifier, "shutdown");
    assert_eq!(b[1].label_x_align.as_ref().and_then(|n| n.as_f64()), Some(0.25));
    assert_eq!(b[1].label_y_align.as_ref().and_then(|n| n.as_f64()), Some(1.0));
    assert_eq!(b[1].width, Some(200));
    assert_eq!(b[1].height, Some(100));
}

#[test]
fn empty_list_is_an_empty_layout() {
    assert_eq!(parse_layout("[]").unwrap().len(), 0);
}

#[test]
fn absent_or_null_keybind_is_none() {
    let b = parse_layout(r#"[{"label":"a","action":"x","text":"A"},{"label":"b","action":"y","text":"B","keybind":null}]"#)
        .unwrap();
    assert!(b[0].keybind.is_none());
    assert!(b[1].keybind.is_none());
}

#[test]
fn unknown_members_are_ignored() {
    let b = parse_layout(r#"[{"label":"a","action":"x","text":"A","colour":"red"}]"#).unwrap();
    assert_eq!(b[0].identifier, "a");
}

#[test]
fn not_json_is_malformed() {
    assert_eq!(parse_layout("[{").err(), Some(ConfigError::Malformed));
}

#[test]
fn not_a_list_is_malformed() {
    assert_eq!(parse_layout(r#"{"label":"a"}"#).err(), Some(ConfigError::Malformed));
    assert_eq!(parse_layout(r#"[1, 2]"#).err(), Some(ConfigError::Malformed));
}

#[test]
fn wrong_member_type_is_malformed() {
    assert_eq!(
        parse_layout(r#"[{"label":"a","action":3,"text":"A"}]"#).err(),
        Some(ConfigError::Malformed)
    );
    assert_eq!(
        parse_layout(r#"[{"label":"a","action":"x","text":"A","width":-1}]"#).err(),
        Some(ConfigError::Malformed)
    );
    assert_eq!(
        parse_layout(r#"[{"label":"a","action":"x","text":"A","height":4294967296}]"#).err(),
        Some(ConfigError::Malformed)
    );
    assert_eq!(
        parse_layout(r#"[{"label":"a","action":"x","text":"A","label_x_align":"left"}]"#).err(),
        Some(ConfigError::Malformed)
    );
    // a type error is reported before a missing member
    assert_eq!(
        parse_layout(r#"[{"label":"a","text":null}]"#).err(),
        Some(ConfigError::Malformed)
    );
}

#[test]
fn missing_action_is_reported() {
    assert_eq!(
        parse_layout(r#"[{"label":"a","text":"A"}]"#).err(),
        Some(ConfigError::MissingField(RequiredField::Action))
    );
    assert_eq!(
        parse_layout(r#"[{"action":"x","text":"A"}]"#).err(),
        Some(ConfigError::MissingField(RequiredField::Label))
    );
    assert_eq!(
        parse_layout(r#"[{"label":"a","action":"x"}]"#).err(),
        Some(ConfigError::MissingField(RequiredField::Text))
    );
}

#[test]
fn first_bad_record_decides() {
    let doc = Value::Array(vec![
        Value::Array(vec![]),
        Value::String(String::from("not a record")),
    ]);
    assert_eq!(layout_from_document(&doc).err(), Some(ConfigError::Malformed));
    let mut first = serde_json::Map::new();
    first.insert(String::from("label"), Value::String(String::from("a")));
    let mut second = serde_json::Map::new();
    second.insert(String::from("label"), Value::Bool(true));
    let doc = Value::Array(vec![Value::Object(first), Value::Object(second)]);
    assert_eq!(
        layout_from_document(&doc).err(),
        Some(ConfigError::MissingField(RequiredField::Action))
    );
}

#[test]
fn document_that_is_not_a_list_is_malformed() {
    assert_eq!(layout_from_document(&Value::Null).err(), Some(ConfigError::Malformed));
    let mut record = serde_json::Map::new();
    record.insert(String::from("label"), Value::String(String::from("a")));
    assert_eq!(layout_from_document(&Value::Object(record)).err(), Some(ConfigError::Malformed));
}

#[test]
fn first_member_of_a_name_is_used() {
    let text = |s: &str| Value::String(String::from(s));
    let members = vec![
        (String::from("label"), text("first")),
        (String::from("label"), text("second")),
        (String::from("action"), text("true")),
        (String::from("text"), Value::Array(vec![])),
    ];
    assert_eq!(button_from_members(&members).err(), Some(ConfigError::Malformed));
    let members = vec![
        (String::from("label"), text("first")),
        (String::from("label"), text("second")),
        (String::from("action"), text("true")),
        (String::from("text"), text("T")),
        (String::from("width"), Value::Number(serde_json::Number::from(7u64))),
    ];
    let b = button_from_members(&members).unwrap();
    assert_eq!(b.identifier, "first");
    assert_eq!(b.width, Some(7));
}

fn spec(text: &str, keybind: Option<&str>) -> ButtonSpec {
    ButtonSpec {
        identifier: String::from("id"),
        display_text: String::from(text),
        keybind: keybind.map(String::from),
        action: String::from("true"),
        label_x_align: None,
        label_y_align: None,
        width: Some(50),
        height: None,
    }
}

#[test]
fn label_shows_keybind_on_request() {
    assert_eq!(spec("Lock", Some("l")).label_text(true), "Lock[l]");
    assert_eq!(spec("Lock", Some("l")).label_text(false), "Lock");
    assert_eq!(spec("Lock", None).label_text(true), "Lock");
}

#[test]
fn own_size_wins_over_default() {
    let b = spec("x", None);
    assert_eq!(b.width_request(Some(10)), Some(50));
    assert_eq!(b.height_request(Some(10)), Some(10));
    assert_eq!(b.height_request(None), None);
}
