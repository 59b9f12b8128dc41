use product_compare::about::AboutResponse;
use product_compare::db::DatabaseTarget;
use product_compare::json::{same_text, JsonValue};
use product_compare::schemas::{CategoryDefinition, SpecificationField};
use product_compare::text::split_on;

fn spec_field(label: &str, unit: &str, better: Option<bool>) -> SpecificationField {
    SpecificationField {
        field_type: "number".to_string(),
        label: label.to_string(),
        unit: unit.to_string(),
        higher_is_better: better,
    }
}

#[test]
fn schema_value_keeps_definition_order() {
    let def = CategoryDefinition {
        slug: "phones".to_string(),
        name: "Phones".to_string(),
        description: "Smart phones".to_string(),
        specifications: vec![
            ("screen".to_string(), spec_field("Screen", "in", Some(true))),
            ("battery".to_string(), spec_field("Battery", "mAh", None)),
        ],
    };
    let v = def.schema_value();
    match &v {
        JsonValue::Object(ms) => {
            let keys: Vec<&str> = ms.iter().map(|m| m.0.as_str()).collect();
            assert_eq!(keys, vec!["screen", "battery"]);
        }
        _ => panic!("schema is not an object"),
    }
    let screen = v.get("screen").unwrap();
    assert_eq!(screen.get("label").and_then(|l| l.as_text()), Some("Screen"));
    assert_eq!(screen.get("higher_is_better"), Some(&JsonValue::Bool(true)));
    let battery = v.get("battery").unwrap();
    assert_eq!(battery.get("unit").and_then(|l| l.as_text()), Some("mAh"));
    assert_eq!(battery.get("higher_is_better"), Some(&JsonValue::Null));
    assert_eq!(battery.get("type").and_then(|l| l.as_text()), Some("number"));
}

#[test]
fn field_value_has_four_members() {
    let v = spec_field("Weight", "kg", Some(false)).to_value();
    match v {
        JsonValue::Object(ms) => {
            let keys: Vec<&str> = ms.iter().map(|m| m.0.as_str()).collect();
            assert_eq!(keys, vec!["type", "label", "unit", "higher_is_better"]);
        }
        _ => panic!("field is not an object"),
    }
}

#[test]
fn lookup_takes_the_first_member_and_needs_an_object() {
    let v = JsonValue::Object(vec![
        ("k".to_string(), JsonValue::Number("1".to_string())),
        ("k".to_string(), JsonValue::Number("2".to_string())),
    ]);
    assert_eq!(v.get("k"), Some(&JsonValue::Number("1".to_string())));
    assert_eq!(v.get("missing"), None);
    assert_eq!(JsonValue::Str("k".to_string()).get("k"), None);
    assert_eq!(JsonValue::Number("1".to_string()).as_text(), None);
}

#[test]
fn texts_compare_by_characters() {
    assert!(same_text("label", "label"));
    assert!(!same_text("label", "labels"));
    assert!(!same_text("unit", "unIt"));
    assert!(same_text("", ""));
}

#[test]
fn split_keeps_empty_pieces() {
    assert_eq!(split_on("a,,b,", ','), vec!["a", "", "b", ""]);
    assert_eq!(split_on("", ','), vec![""]);
}

#[test]
fn database_url_is_split_at_its_last_slash() {
    let t = DatabaseTarget::from_url("postgres://localhost:5432/shop?sslmode=disable").unwrap();
    assert_eq!(t.name, "shop");
    assert_eq!(t.server_url, "postgres://localhost:5432/postgres");
    assert_eq!(t.create_statement(), "CREATE DATABASE shop");
}

#[test]
fn database_url_without_slash_is_refused() {
    assert_eq!(DatabaseTarget::from_url("shop"), None);
}

#[test]
fn about_response_describes_the_service() {
    let a = AboutResponse::describe("backend", "0.1.0");
    assert_eq!(a.name, "backend");
    assert_eq!(a.version, "0.1.0");
    assert_eq!(
        a.description,
        "Product Comparison API - Compare products across different categories with detailed specifications"
    );
}
