use vstd::prelude::*;

use crate::json::{json_view, Json, JsonValue};

verus! {

/// The definition of one comparable attribute of a category.
#[derive(Clone, Debug, PartialEq)]
pub struct SpecificationField {
    pub field_type: String,
    pub label: String,
    pub unit: String,
    pub higher_is_better: Option<bool>,
}

/// A category as the schema file defines it; its fields in definition order.
#[derive(Clone, Debug, PartialEq)]
pub struct CategoryDefinition {
    pub slug: String,
    pub name: String,
    pub description: String,
    pub specifications: Vec<(String, SpecificationField)>,
}

/// The categories of the schema file, in order.
#[derive(Clone, Debug, PartialEq)]
pub struct CategorySchemas {
    pub categories: Vec<CategoryDefinition>,
}

/// The stored form of a field definition: an object with the members `type`,
/// `label`, `unit` and `higher_is_better` (null where it is not set), in that
/// order.
pub open spec fn field_json(f: SpecificationField) -> Json {
    Json::Object(
        seq![
            ("type"@, Json::Str(f.field_type@)),
            ("label"@, Json::Str(f.label@)),
            ("unit"@, Json::Str(f.unit@)),
            ("higher_is_better"@, match f.higher_is_better {
                Some(b) => Json::Bool(b),
                None => Json::Null,
            }),
        ],
    )
}

/// The stored form of a category's schema: an object with one member for each
/// field, in definition order.
pub open spec fn schema_json(fields: Seq<(String, SpecificationField)>) -> Json {
    Json::Object(fields.map_values(|e: (String, SpecificationField)| (e.0@, field_json(e.1))))
}

impl SpecificationField {
    /// The stored form of the field definition.
    pub fn to_value(&self) -> (r: JsonValue)
        ensures
            r@ == field_json(*self),
    {
        let mut ms: Vec<(String, JsonValue)> = Vec::new();
        ms.push(("type".to_string(), JsonValue::Str(self.field_type.clone())));
        ms.push(("label".to_string(), JsonValue::Str(self.label.clone())));
        ms.push(("unit".to_string(), JsonValue::Str(self.unit.clone())));
        let better = match self.higher_is_better {
            Some(b) => JsonValue::Bool(b),
            None => JsonValue::Null,
        };
        ms.push(("higher_is_better".to_string(), better));
        let r = JsonValue::Object(ms);
        assert forall|i: int| 0 <= i < 4 implies (#[trigger] r@->Object_0[i]) == field_json(
            *self,
        )->Object_0[i] by {
            assert(r@->Object_0[i] == (ms[i].0@, json_view(ms[i].1)));
        }
        assert(r@->Object_0 =~= field_json(*self)->Object_0);
        r
    }
}

impl CategoryDefinition {
    /// The stored form of the category's schema, fields in definition order.
    pub fn schema_value(&self) -> (r: JsonValue)
        ensures
            r@ == schema_json(self.specifications@),
    {
        let mut ms: Vec<(String, JsonValue)> = Vec::new();
        let mut i: usize = 0;
        while i < self.specifications.len()
            invariant
                i <= self.specifications.len(),
                ms.len() == i,
                forall|j: int|
                    0 <= j < i ==> (#[trigger] ms[j]).0@ == self.specifications[j].0@ && ms[j].1@
                        == field_json(self.specifications[j].1),
            decreases self.specifications.len() - i,
        {
            let (name, field) = &self.specifications[i];
            ms.push((name.clone(), field.to_value()));
            i = i + 1;
        }
        let r = JsonValue::Object(ms);
        assert(r@->Object_0 =~= schema_json(self.specifications@)->Object_0);
        r
    }
}

} // verus!
