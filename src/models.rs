use vstd::prelude::*;

use crate::json::JsonValue;

verus! {

/// An exact decimal number: `digits` times ten to the power of minus `scale`.
#[derive(Clone, Copy, Debug, PartialEq, Eq)]
pub struct Decimal {
    pub digits: i128,
    pub scale: i64,
}

/// A group of products that share one specification schema.
/// The schema maps each field name to its definition, in the order in which
/// the fields are compared.
#[derive(Debug, PartialEq)]
pub struct Category {
    pub id: i32,
    pub name: String,
    pub slug: String,
    pub description: Option<String>,
    pub specification_schema: Option<JsonValue>,
}

/// An item of one category, with its values for (some of) the schema's fields.
#[derive(Debug, PartialEq)]
pub struct Product {
    pub id: i32,
    pub category_id: i32,
    pub name: String,
    pub manufacturer: Option<String>,
    pub model: Option<String>,
    pub specifications: Option<JsonValue>,
    pub price: Option<Decimal>,
}

/// One displayed attribute of a comparison: one value for each product compared.
#[derive(Debug, PartialEq)]
pub struct ComparisonRow {
    pub field: String,
    pub label: String,
    pub unit: String,
    pub values: Vec<ComparisonValue>,
}

/// The value of one attribute for one product.
#[derive(Debug, PartialEq)]
pub struct ComparisonValue {
    pub product_id: i32,
    pub product_name: String,
    pub value: JsonValue,
}

/// The query of a comparison request: product ids separated by commas.
#[derive(Debug, PartialEq)]
pub struct CompareQuery {
    pub ids: String,
}

} // verus!
