use product_compare::compare::{build_comparison_table, comparison_rows};
use product_compare::json::JsonValue;
use product_compare::models::{Category, ComparisonRow, Decimal, Product};

fn text(s: &str) -> JsonValue {
    JsonValue::Str(s.to_string())
}

fn num(s: &str) -> JsonValue {
    JsonValue::Number(s.to_string())
}

fn object(members: Vec<(&str, JsonValue)>) -> JsonValue {
    JsonValue::Object(members.into_iter().map(|(k, v)| (k.to_string(), v)).collect())
}

fn field_def(label: &str, unit: &str) -> JsonValue {
    object(vec![("type", text("number")), ("label", text(label)), ("unit", text(unit))])
}

fn category(schema: Option<JsonValue>) -> Category {
    Category {
        id: 1,
        name: "Cars".to_string(),
        slug: "cars".to_string(),
        description: None,
        specification_schema: schema,
    }
}

fn product(
    id: i32,
    name: &str,
    manufacturer: Option<&str>,
    price: Option<Decimal>,
    specs: Option<JsonValue>,
) -> Product {
    Product {
        id,
        category_id: 1,
        name: name.to_string(),
        manufacturer: manufacturer.map(|m| m.to_string()),
        model: None,
        specifications: specs,
        price,
    }
}

fn fields(rows: &[ComparisonRow]) -> Vec<String> {
    rows.iter().map(|r| r.field.clone()).collect()
}

fn column(row: &ComparisonRow) -> Vec<&JsonValue> {
    row.values.iter().map(|v| &v.value).collect()
}

fn electric_cars() -> (Category, Vec<Product>) {
    let cat = category(Some(object(vec![
        ("range_km", field_def("Range", "km")),
        ("seats", field_def("Seats", "")),
    ])));
    let products = vec![
        product(
            1,
            "A",
            Some("X"),
            Some(Decimal { digits: 3000000, scale: 2 }),
            Some(object(vec![("range_km", num("300"))])),
        ),
        product(2, "B", None, None, Some(object(vec![("seats", num("5"))]))),
    ];
    (cat, products)
}

#[test]
fn electric_car_comparison_table() {
    let (cat, products) = electric_cars();
    let rows = build_comparison_table(&cat, &products);
    assert_eq!(fields(&rows), vec!["name", "manufacturer", "price", "range_km", "seats"]);
    assert_eq!(column(&rows[0]), vec![&text("A"), &text("B")]);
    assert_eq!(column(&rows[1]), vec![&text("X"), &text("")]);
    assert_eq!(column(&rows[2]), vec![&text("30000.00"), &text("")]);
    assert_eq!(column(&rows[3]), vec![&num("300"), &JsonValue::Null]);
    assert_eq!(column(&rows[4]), vec![&JsonValue::Null, &num("5")]);
    assert_eq!(rows[3].label, "Range");
    assert_eq!(rows[3].unit, "km");
    assert_eq!(rows[4].label, "Seats");
    assert_eq!(rows[4].unit, "");
}

#[test]
fn fixed_rows_have_their_labels_and_units() {
    let (cat, products) = electric_cars();
    let rows = build_comparison_table(&cat, &products);
    assert_eq!(rows[0].label, "Product Name");
    assert_eq!(rows[0].unit, "");
    assert_eq!(rows[1].label, "Manufacturer");
    assert_eq!(rows[1].unit, "");
    assert_eq!(rows[2].label, "Price");
    assert_eq!(rows[2].unit, "$");
}

#[test]
fn price_is_rendered_exactly() {
    let cat = category(None);
    let products = vec![product(7, "Widget", None, Some(Decimal { digits: 1999, scale: 2 }), None)];
    let rows = build_comparison_table(&cat, &products);
    assert_eq!(rows[2].values[0].value, text("19.99"));
}

#[test]
fn price_keeps_every_digit_of_its_scale() {
    let cat = category(None);
    let products = vec![
        product(1, "a", None, Some(Decimal { digits: 500, scale: 2 }), None),
        product(2, "b", None, Some(Decimal { digits: -1234, scale: 1 }), None),
        product(3, "c", None, Some(Decimal { digits: 42, scale: 0 }), None),
    ];
    let rows = build_comparison_table(&cat, &products);
    assert_eq!(column(&rows[2]), vec![&text("5.00"), &text("-123.4"), &text("42")]);
}

#[test]
fn absent_manufacturer_is_empty_text() {
    let cat = category(None);
    let products = vec![product(3, "Nameless", None, None, None)];
    let rows = build_comparison_table(&cat, &products);
    assert_eq!(rows[1].field, "manufacturer");
    assert_eq!(rows[1].values.len(), 1);
    assert_eq!(rows[1].values[0].value, text(""));
}

#[test]
fn no_schema_gives_three_rows() {
    let (_, products) = electric_cars();
    let rows = build_comparison_table(&category(None), &products);
    assert_eq!(fields(&rows), vec!["name", "manufacturer", "price"]);
}

#[test]
fn schema_that_is_not_an_object_gives_three_rows() {
    let (_, products) = electric_cars();
    let rows = build_comparison_table(&category(Some(text("broken"))), &products);
    assert_eq!(fields(&rows), vec!["name", "manufacturer", "price"]);
}

#[test]
fn schema_order_is_kept_and_not_sorted() {
    let cat = category(Some(object(vec![
        ("zeta", field_def("Z", "")),
        ("alpha", field_def("A", "")),
        ("mid", field_def("M", "")),
    ])));
    let rows = build_comparison_table(&cat, &[product(1, "p", None, None, None)]);
    assert_eq!(fields(&rows), vec!["name", "manufacturer", "price", "zeta", "alpha", "mid"]);
}

#[test]
fn definition_that_is_not_an_object_is_skipped() {
    let cat = category(Some(object(vec![
        ("weight", field_def("Weight", "kg")),
        ("bogus", num("3")),
        ("color", field_def("Color", "")),
    ])));
    let rows = build_comparison_table(&cat, &[product(1, "p", None, None, None)]);
    assert_eq!(fields(&rows), vec!["name", "manufacturer", "price", "weight", "color"]);
}

#[test]
fn label_and_unit_defaults() {
    let cat = category(Some(object(vec![
        ("torque", object(vec![("type", text("number"))])),
        ("power", object(vec![("label", num("1")), ("unit", JsonValue::Bool(true))])),
    ])));
    let rows = build_comparison_table(&cat, &[product(1, "p", None, None, None)]);
    assert_eq!(rows[3].label, "torque");
    assert_eq!(rows[3].unit, "");
    assert_eq!(rows[4].label, "power");
    assert_eq!(rows[4].unit, "");
}

#[test]
fn values_follow_product_order() {
    let (cat, mut products) = electric_cars();
    products.reverse();
    products.push(product(9, "C", Some("Y"), None, None));
    let rows = build_comparison_table(&cat, &products);
    for row in &rows {
        assert_eq!(row.values.len(), 3);
        let ids: Vec<i32> = row.values.iter().map(|v| v.product_id).collect();
        let names: Vec<&str> = row.values.iter().map(|v| v.product_name.as_str()).collect();
        assert_eq!(ids, vec![2, 1, 9]);
        assert_eq!(names, vec!["B", "A", "C"]);
    }
}

#[test]
fn missing_values_are_explicit_nulls() {
    let cat = category(Some(object(vec![("seats", field_def("Seats", ""))])));
    let products = vec![
        product(1, "none", None, None, None),
        product(2, "other", None, None, Some(object(vec![("doors", num("4"))]))),
        product(3, "scalar", None, None, Some(num("8"))),
    ];
    let rows = build_comparison_table(&cat, &products);
    assert_eq!(rows[3].values.len(), 3);
    assert_eq!(column(&rows[3]), vec![&JsonValue::Null, &JsonValue::Null, &JsonValue::Null]);
}

#[test]
fn values_pass_through_unchanged() {
    let cat = category(Some(object(vec![("ports", field_def("Ports", ""))])));
    let nested = JsonValue::Array(vec![
        text("usb-c"),
        object(vec![("hdmi", JsonValue::Bool(false)), ("count", num("2.5"))]),
        JsonValue::Null,
    ]);
    let products = vec![product(1, "laptop", None, None, Some(object(vec![("ports", nested.deep_copy())])))];
    let rows = build_comparison_table(&cat, &products);
    assert_eq!(rows[3].values[0].value, nested);
}

#[test]
fn empty_product_list_gives_empty_rows() {
    let (cat, _) = electric_cars();
    let rows = build_comparison_table(&cat, &[]);
    assert_eq!(rows.len(), 5);
    assert!(rows.iter().all(|r| r.values.is_empty()));
}

#[test]
fn rows_from_given_price_texts() {
    let (cat, products) = electric_cars();
    let prices = vec!["1.50".to_string(), "".to_string()];
    let rows = comparison_rows(&cat, &products, &prices);
    assert_eq!(column(&rows[2]), vec![&text("1.50"), &text("")]);
    assert_eq!(column(&rows[0]), vec![&text("A"), &text("B")]);
    assert_eq!(rows.len(), 5);
}

#[test]
fn decimal_text_is_exact() {
    assert_eq!(Decimal { digits: 1999, scale: 2 }.to_text(), "19.99");
    assert_eq!(Decimal { digits: 3000000, scale: 2 }.to_text(), "30000.00");
}
