use vstd::prelude::*;

verus! {

/// What the service says of itself.
#[derive(Clone, Debug, PartialEq)]
pub struct AboutResponse {
    pub name: String,
    pub version: String,
    pub description: String,
}

/// The one-line description of the service.
pub open spec fn service_description() -> Seq<char> {
    "Product Comparison API - Compare products across different categories with detailed specifications"@
}

impl AboutResponse {
    /// The description of the service under the given package name and version.
    pub fn describe(name: &str, version: &str) -> (r: AboutResponse)
        ensures
            r.name@ == name@,
            r.version@ == version@,
            r.description@ == service_description(),
    {
        AboutResponse {
            name: name.to_string(),
            version: version.to_string(),
            description: "Product Comparison API - Compare products across different categories with detailed specifications".to_string(),
        }
    }
}

} // verus!
