use vstd::prelude::*;

use crate::decimal::decimal_text;
use crate::json::{member, text_of, Json, JsonValue};
use crate::models::{Category, ComparisonRow, ComparisonValue, Product};

verus! {

/// The members of the category's schema; none where it has no schema, or one
/// that is not an object.
pub open spec fn schema_members(category: Category) -> Seq<(Seq<char>, Json)> {
    match category.specification_schema {
        Some(v) => match v@ {
            Json::Object(ms) => ms,
            _ => Seq::empty(),
        },
        None => Seq::empty(),
    }
}

/// The members whose definition is an object, in their order.
pub open spec fn defined_fields(ms: Seq<(Seq<char>, Json)>) -> Seq<(Seq<char>, Json)> {
    ms.filter(|f: (Seq<char>, Json)| f.1 is Object)
}

/// The fields that a comparison shows for the category, in schema order.
pub open spec fn schema_fields(category: Category) -> Seq<(Seq<char>, Json)> {
    defined_fields(schema_members(category))
}

/// The label of a field: its definition's `label` text, else the field's name.
pub open spec fn field_label(f: (Seq<char>, Json)) -> Seq<char> {
    match text_of(member(f.1, "label"@)) {
        Some(s) => s,
        None => f.0,
    }
}

/// The unit of a field: its definition's `unit` text, else empty.
pub open spec fn field_unit(f: (Seq<char>, Json)) -> Seq<char> {
    match text_of(member(f.1, "unit"@)) {
        Some(s) => s,
        None => Seq::empty(),
    }
}

/// The product's value for a field, null where it has none.
pub open spec fn spec_value(p: Product, key: Seq<char>) -> Json {
    match p.specifications {
        Some(v) => match member(v@, key) {
            Some(x) => x,
            None => Json::Null,
        },
        None => Json::Null,
    }
}

/// The manufacturer's name, empty where it is absent.
pub open spec fn manufacturer_text(p: Product) -> Seq<char> {
    match p.manufacturer {
        Some(m) => m@,
        None => Seq::empty(),
    }
}

/// The exact text of the price, empty where it is absent.
pub open spec fn price_text(p: Product) -> Seq<char> {
    match p.price {
        Some(d) => decimal_text(d.digits as int, d.scale as int),
        None => Seq::empty(),
    }
}

/// The row has this field, label and unit, and one value for each product, in
/// the products' order: the product's id and name, and the cell at its index.
pub open spec fn row_holds(
    row: ComparisonRow,
    field: Seq<char>,
    label: Seq<char>,
    unit: Seq<char>,
    products: Seq<Product>,
    cell: spec_fn(int) -> Json,
) -> bool {
    &&& row.field@ == field
    &&& row.label@ == label
    &&& row.unit@ == unit
    &&& row.values.len() == products.len()
    &&& forall|i: int|
        0 <= i < products.len() ==> {
            &&& (#[trigger] row.values[i]).product_id == products[i].id
            &&& row.values[i].product_name@ == products[i].name@
            &&& row.values[i].value@ == cell(i)
        }
}

/// The comparison table of the products under the category, with `prices[i]`
/// as the price text of product `i`: the rows name, manufacturer and price,
/// then one row for each schema field, in schema order.
pub open spec fn table_holds(
    rows: Seq<ComparisonRow>,
    category: Category,
    products: Seq<Product>,
    prices: Seq<Seq<char>>,
) -> bool {
    let fields = schema_fields(category);
    &&& rows.len() == 3 + fields.len()
    &&& row_holds(
        rows[0],
        "name"@,
        "Product Name"@,
        Seq::empty(),
        products,
        |i: int| Json::Str(products[i].name@),
    )
    &&& row_holds(
        rows[1],
        "manufacturer"@,
        "Manufacturer"@,
        Seq::empty(),
        products,
        |i: int| Json::Str(manufacturer_text(products[i])),
    )
    &&& row_holds(rows[2], "price"@, "Price"@, "$"@, products, |i: int| Json::Str(prices[i]))
    &&& forall|k: int|
        0 <= k < fields.len() ==> row_holds(
            #[trigger] rows[3 + k],
            fields[k].0,
            field_label(fields[k]),
            field_unit(fields[k]),
            products,
            |i: int| spec_value(products[i], fields[k].0),
        )
}

/// The price texts of the products, as bigdecimal writes them.
pub open spec fn price_texts(products: Seq<Product>) -> Seq<Seq<char>> {
    Seq::new(products.len(), |i: int| price_text(products[i]))
}

/// A row of the given cells, one for each product, in the products' order.
fn make_row(
    field: String,
    label: String,
    unit: String,
    products: &[Product],
    cells: &Vec<JsonValue>,
) -> (r: ComparisonRow)
    requires
        cells.len() == products.len(),
    ensures
        r.field@ == field@,
        r.label@ == label@,
        r.unit@ == unit@,
        r.values.len() == products.len(),
        forall|i: int|
            0 <= i < products.len() ==> {
                &&& (#[trigger] r.values[i]).product_id == products[i].id
                &&& r.values[i].product_name@ == products[i].name@
                &&& r.values[i].value@ == cells[i]@
            },
{
    let mut values: Vec<ComparisonValue> = Vec::new();
    let mut i: usize = 0;
    while i < products.len()
        invariant
            i <= products.len(),
            cells.len() == products.len(),
            values.len() == i,
            forall|j: int|
                0 <= j < i ==> {
                    &&& (#[trigger] values[j]).product_id == products[j].id
                    &&& values[j].product_name@ == products[j].name@
                    &&& values[j].value@ == cells[j]@
                },
        decreases products.len() - i,
    {
        let value = cells[i].deep_copy();
        values.push(
            ComparisonValue { product_id: products[i].id, product_name: products[i].name.clone(), value },
        );
        i = i + 1;
    }
    ComparisonRow { field, label, unit, values }
}

/// The product's value for the field `key`: a copy of it, or null.
fn spec_cell(p: &Product, key: &str) -> (r: JsonValue)
    ensures
        r@ == spec_value(*p, key@),
{
    match &p.specifications {
        Some(v) => match v.get(key) {
            Some(x) => x.deep_copy(),
            None => JsonValue::Null,
        },
        None => JsonValue::Null,
    }
}

/// The text of member `key` of a field definition, or `fallback`.
fn definition_text(def: &JsonValue, key: &str, fallback: &str) -> (r: String)
    ensures
        r@ == match text_of(member(def@, key@)) {
            Some(s) => s,
            None => fallback@,
        },
{
    match def.get(key) {
        Some(v) => match v.as_text() {
            Some(t) => t.to_string(),
            None => fallback.to_string(),
        },
        None => fallback.to_string(),
    }
}

/// The row of one schema field.
fn field_row(name: &String, def: &JsonValue, products: &[Product]) -> (r: ComparisonRow)
    ensures
        row_holds(
            r,
            name@,
            field_label((name@, def@)),
            field_unit((name@, def@)),
            products@,
            |i: int| spec_value(products[i], name@),
        ),
{
    let label = definition_text(def, "label", name.as_str());
    let unit = definition_text(def, "unit", "");
    proof {
        reveal_strlit("");
    }
    let mut cells: Vec<JsonValue> = Vec::new();
    let mut i: usize = 0;
    while i < products.len()
        invariant
            i <= products.len(),
            cells.len() == i,
            forall|j: int| 0 <= j < i ==> (#[trigger] cells[j])@ == spec_value(products[j], name@),
        decreases products.len() - i,
    {
        cells.push(spec_cell(&products[i], name.as_str()));
        i = i + 1;
    }
    let r = make_row(name.clone(), label, unit, products, &cells);
    assert(r.label@ == field_label((name@, def@)));
    assert(r.unit@ == field_unit((name@, def@)));
    r
}

/// The comparison table of the products under the category, where `prices[i]`
/// is the rendered price of product `i`: the rows name, manufacturer and price,
/// then one row for each field of the schema whose definition is an object, in
/// schema order. Each row holds one value for each product, in the products'
/// order; a product without a value for a field has null there.
pub fn comparison_rows(category: &Category, products: &[Product], prices: &Vec<String>) -> (r: Vec<
    ComparisonRow,
>)
    requires
        prices.len() == products.len(),
    ensures
        table_holds(r@, *category, products@, prices@.map_values(|s: String| s@)),
{
    let ghost price_seq = prices@.map_values(|s: String| s@);
    let mut names: Vec<JsonValue> = Vec::new();
    let mut makers: Vec<JsonValue> = Vec::new();
    let mut costs: Vec<JsonValue> = Vec::new();
    let mut i: usize = 0;
    while i < products.len()
        invariant
            i <= products.len(),
            prices.len() == products.len(),
            price_seq == prices@.map_values(|s: String| s@),
            names.len() == i,
            makers.len() == i,
            costs.len() == i,
            forall|j: int| 0 <= j < i ==> (#[trigger] names[j])@ == Json::Str(products[j].name@),
            forall|j: int|
                0 <= j < i ==> (#[trigger] makers[j])@ == Json::Str(manufacturer_text(products[j])),
            forall|j: int| 0 <= j < i ==> (#[trigger] costs[j])@ == Json::Str(price_seq[j]),
        decreases products.len() - i,
    {
        let p = &products[i];
        names.push(JsonValue::Str(p.name.clone()));
        let maker = match &p.manufacturer {
            Some(m) => m.clone(),
            None => String::new(),
        };
        makers.push(JsonValue::Str(maker));
        costs.push(JsonValue::Str(prices[i].clone()));
        i = i + 1;
    }
    let mut rows: Vec<ComparisonRow> = Vec::new();
    rows.push(
        make_row("name".to_string(), "Product Name".to_string(), String::new(), products, &names),
    );
    let row = make_row(
        "manufacturer".to_string(),
        "Manufacturer".to_string(),
        String::new(),
        products,
        &makers,
    );
    rows.push(row);
    let row = make_row("price".to_string(), "Price".to_string(), "$".to_string(), products, &costs);
    rows.push(row);
    let ghost members = schema_members(*category);
    if let Some(schema) = &category.specification_schema {
        if let JsonValue::Object(ms) = schema {
            let ghost mv = schema@->Object_0;
            assert(members == mv);
            let mut k: usize = 0;
            while k < ms.len()
                invariant
                    k <= ms.len(),
                    mv.len() == ms.len(),
                    forall|j: int| 0 <= j < ms.len() ==> mv[j] == (ms[j].0@, ms[j].1@),
                    rows.len() == 3 + defined_fields(mv.take(k as int)).len(),
                    forall|j: int|
                        0 <= j < defined_fields(mv.take(k as int)).len() ==> row_holds(
                            #[trigger] rows[3 + j],
                            defined_fields(mv.take(k as int))[j].0,
                            field_label(defined_fields(mv.take(k as int))[j]),
                            field_unit(defined_fields(mv.take(k as int))[j]),
                            products@,
                            |i: int| spec_value(products[i], defined_fields(mv.take(k as int))[j].0),
                        ),
                    row_holds(
                        rows[0],
                        "name"@,
                        "Product Name"@,
                        Seq::empty(),
                        products@,
                        |i: int| Json::Str(products[i].name@),
                    ),
                    row_holds(
                        rows[1],
                        "manufacturer"@,
                        "Manufacturer"@,
                        Seq::empty(),
                        products@,
                        |i: int| Json::Str(manufacturer_text(products[i])),
                    ),
                    row_holds(rows[2], "price"@, "Price"@, "$"@, products@, |i: int| Json::Str(price_seq[i])),
                decreases ms.len() - k,
            {
                assert(mv.take(k as int + 1) =~= mv.take(k as int).push(mv[k as int]));
                proof {
                    mv.take(k as int).lemma_filter_push(
                        mv[k as int],
                        |f: (Seq<char>, Json)| f.1 is Object,
                    );
                }
                let (name, def) = &ms[k];
                if let JsonValue::Object(_) = def {
                    let row = field_row(name, def, products);
                    rows.push(row);
                }
                k = k + 1;
            }
            assert(mv.take(ms.len() as int) =~= mv);
        }
    }
    rows
}

/// The comparison table of the products under the category: the rows name,
/// manufacturer and price (its exact decimal text, empty where it is absent),
/// then one row for each field of the schema whose definition is an object, in
/// schema order, with one value for each product in the products' order.
pub fn build_comparison_table(category: &Category, products: &[Product]) -> (r: Vec<ComparisonRow>)
    ensures
        table_holds(r@, *category, products@, price_texts(products@)),
{
    let mut prices: Vec<String> = Vec::new();
    let mut i: usize = 0;
    while i < products.len()
        invariant
            i <= products.len(),
            prices.len() == i,
            forall|j: int| 0 <= j < i ==> (#[trigger] prices[j])@ == price_text(products[j]),
        decreases products.len() - i,
    {
        let text = match &products[i].price {
            Some(d) => d.to_text(),
            None => String::new(),
        };
        prices.push(text);
        i = i + 1;
    }
    let r = comparison_rows(category, products, &prices);
    assert(prices@.map_values(|s: String| s@) =~= price_texts(products@));
    r
}

/// A comparison table holds the rows name, manufacturer and price, then one
/// row for each schema field whose definition is an object, in schema order:
/// no such field is left out and none is reordered.
pub proof fn lemma_row_order(category: Category, products: Seq<Product>, rows: Seq<ComparisonRow>)
    requires
        table_holds(rows, category, products, price_texts(products)),
    ensures
        rows.len() == 3 + schema_fields(category).len(),
        rows[0].field@ == "name"@,
        rows[1].field@ == "manufacturer"@,
        rows[2].field@ == "price"@,
        forall|k: int|
            0 <= k < schema_fields(category).len() ==> (#[trigger] rows[3 + k]).field@ == schema_fields(
                category,
            )[k].0,
        forall|j: int|
            0 <= j < schema_members(category).len() && (#[trigger] schema_members(category)[j]).1 is Object
                ==> schema_fields(category).contains(schema_members(category)[j]),
{
    let ms = schema_members(category);
    assert forall|j: int| 0 <= j < ms.len() && (#[trigger] ms[j]).1 is Object implies schema_fields(
        category,
    ).contains(ms[j]) by {
        assert(ms.contains(ms[j]));
        ms.lemma_filter_contains_rev(|f: (Seq<char>, Json)| f.1 is Object, ms[j]);
    }
    assert forall|k: int| 0 <= k < schema_fields(category).len() implies (#[trigger] rows[3
        + k]).field@ == schema_fields(category)[k].0 by {
        let f = schema_fields(category)[k];
        assert(row_holds(
            rows[3 + k],
            f.0,
            field_label(f),
            field_unit(f),
            products,
            |i: int| spec_value(products[i], f.0),
        ));
    }
}

/// Each row of a comparison table holds one value for each product, and its
/// value at index `i` is that of product `i`, by id and name.
pub proof fn lemma_values_align(
    category: Category,
    products: Seq<Product>,
    rows: Seq<ComparisonRow>,
)
    requires
        table_holds(rows, category, products, price_texts(products)),
    ensures
        forall|r: int| 0 <= r < rows.len() ==> (#[trigger] rows[r]).values.len() == products.len(),
        forall|r: int, i: int|
            0 <= r < rows.len() && 0 <= i < products.len() ==> {
                &&& (#[trigger] rows[r].values[i]).product_id == products[i].id
                &&& rows[r].values[i].product_name@ == products[i].name@
            },
{
    let fields = schema_fields(category);
    assert forall|r: int| 3 <= r < rows.len() implies row_holds(
        rows[r],
        fields[r - 3].0,
        field_label(fields[r - 3]),
        field_unit(fields[r - 3]),
        products,
        |i: int| spec_value(products[i], fields[r - 3].0),
    ) by {
        assert(rows[3 + (r - 3)] == rows[r]);
    }
}

/// Where a product has no value for a schema field, its value in that field's
/// row is null: the entry is there, not left out.
pub proof fn lemma_missing_value_is_null(
    category: Category,
    products: Seq<Product>,
    rows: Seq<ComparisonRow>,
    k: int,
    i: int,
)
    requires
        table_holds(rows, category, products, price_texts(products)),
        0 <= k < schema_fields(category).len(),
        0 <= i < products.len(),
        match products[i].specifications {
            Some(v) => member(v@, schema_fields(category)[k].0) is None,
            None => true,
        },
    ensures
        rows[3 + k].values.len() == products.len(),
        rows[3 + k].values[i].value@ == Json::Null,
{
    let f = schema_fields(category)[k];
    assert(row_holds(
        rows[3 + k],
        f.0,
        field_label(f),
        field_unit(f),
        products,
        |j: int| spec_value(products[j], f.0),
    ));
}

/// Where a product has no manufacturer, its value in the manufacturer row is
/// the empty string.
pub proof fn lemma_absent_manufacturer_is_empty(
    category: Category,
    products: Seq<Product>,
    rows: Seq<ComparisonRow>,
    i: int,
)
    requires
        table_holds(rows, category, products, price_texts(products)),
        0 <= i < products.len(),
        products[i].manufacturer is None,
    ensures
        rows[1].field@ == "manufacturer"@,
        rows[1].values[i].value@ == Json::Str(Seq::empty()),
{
}

/// A product's value in the price row is the exact decimal text of its price,
/// the empty string where it has none.
pub proof fn lemma_price_is_exact_text(
    category: Category,
    products: Seq<Product>,
    rows: Seq<ComparisonRow>,
    i: int,
)
    requires
        table_holds(rows, category, products, price_texts(products)),
        0 <= i < products.len(),
    ensures
        rows[2].field@ == "price"@,
        rows[2].values[i].value@ == Json::Str(
            match products[i].price {
                Some(d) => decimal_text(d.digits as int, d.scale as int),
                None => Seq::empty(),
            },
        ),
{
}

/// A category without a specification schema gives exactly the three fixed
/// rows: name, manufacturer and price.
pub proof fn lemma_no_schema_fixed_rows(
    category: Category,
    products: Seq<Product>,
    rows: Seq<ComparisonRow>,
)
    requires
        table_holds(rows, category, products, price_texts(products)),
        category.specification_schema is None,
    ensures
        rows.len() == 3,
        rows[0].field@ == "name"@,
        rows[1].field@ == "manufacturer"@,
        rows[2].field@ == "price"@,
{
    assert(schema_members(category) =~= Seq::empty());
}

} // verus!
