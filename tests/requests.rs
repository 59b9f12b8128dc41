use product_compare::json::JsonValue;
use product_compare::models::{CompareQuery, Product};
use product_compare::request::{common_category, ids_from_pieces, parse_product_ids, CompareError};

fn item(id: i32, category_id: i32) -> Product {
    Product {
        id,
        category_id,
        name: format!("p{}", id),
        manufacturer: None,
        model: None,
        specifications: Some(JsonValue::Null),
        price: None,
    }
}

#[test]
fn ids_are_trimmed_and_unreadable_ones_skipped() {
    assert_eq!(parse_product_ids(" 1, 2,x,3,,"), vec![1, 2, 3]);
}

#[test]
fn ids_keep_sign_and_order() {
    assert_eq!(parse_product_ids("+5,-7,12"), vec![5, -7, 12]);
}

#[test]
fn ids_out_of_range_are_skipped() {
    assert_eq!(parse_product_ids("2147483647,2147483648,4"), vec![2147483647, 4]);
}

#[test]
fn ids_from_trimmed_pieces() {
    let pieces = vec!["8".to_string(), "".to_string(), "a1".to_string(), "-0".to_string()];
    assert_eq!(ids_from_pieces(&pieces), vec![8, 0]);
}

#[test]
fn query_without_ids_is_refused() {
    let q = CompareQuery { ids: " , abc".to_string() };
    assert_eq!(q.product_ids(), Err(CompareError::NoProductIds));
    let q = CompareQuery { ids: "".to_string() };
    assert_eq!(q.product_ids(), Err(CompareError::NoProductIds));
}

#[test]
fn query_with_ids() {
    let q = CompareQuery { ids: "3,1".to_string() };
    assert_eq!(q.product_ids(), Ok(vec![3, 1]));
}

#[test]
fn no_products_is_not_found() {
    assert_eq!(common_category(&[]), Err(CompareError::NoProductsFound));
}

#[test]
fn mixed_categories_are_refused() {
    assert_eq!(common_category(&[item(1, 4), item(2, 4), item(3, 5)]), Err(CompareError::MixedCategories));
}

#[test]
fn shared_category_is_returned() {
    assert_eq!(common_category(&[item(1, 4), item(2, 4)]), Ok(4));
}

use product_compare::search::{contains_pattern, SearchFilters};

const SELECT: &str = "SELECT DISTINCT p.id, p.category_id, p.name, p.manufacturer, p.model, p.specifications, p.price FROM products p LEFT JOIN categories c ON p.category_id = c.id WHERE 1=1";

#[test]
fn search_without_filters() {
    let f = SearchFilters { text: false, category: false, manufacturer: false, min_price: false, max_price: false };
    assert_eq!(f.sql(), format!("{} ORDER BY p.name", SELECT));
}

#[test]
fn search_numbers_parameters_in_order() {
    let f = SearchFilters { text: true, category: false, manufacturer: true, min_price: false, max_price: true };
    assert_eq!(
        f.sql(),
        format!(
            "{} AND (p.name ILIKE $1 OR p.manufacturer ILIKE $1 OR p.model ILIKE $1) AND p.manufacturer ILIKE $2 AND p.price <= $3 ORDER BY p.name",
            SELECT
        )
    );
}

#[test]
fn search_with_every_filter() {
    let f = SearchFilters { text: true, category: true, manufacturer: true, min_price: true, max_price: true };
    assert_eq!(
        f.sql(),
        format!(
            "{} AND (p.name ILIKE $1 OR p.manufacturer ILIKE $1 OR p.model ILIKE $1) AND c.slug = $2 AND p.manufacturer ILIKE $3 AND p.price >= $4 AND p.price <= $5 ORDER BY p.name",
            SELECT
        )
    );
}

#[test]
fn pattern_wraps_the_text() {
    assert_eq!(contains_pattern("tesla"), "%tesla%");
    assert_eq!(contains_pattern(""), "%%");
}
