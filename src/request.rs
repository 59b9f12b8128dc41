use vstd::prelude::*;

use crate::models::{CompareQuery, Product};
use crate::text::{split_on, split_spec};

verus! {

/// Why a comparison request is turned down before any table is built.
#[derive(Clone, Copy, Debug, PartialEq, Eq)]
pub enum CompareError {
    /// The query names no product id that can be read.
    NoProductIds,
    /// None of the requested products exists.
    NoProductsFound,
    /// The products belong to more than one category.
    MixedCategories,
}

/// The value of a nonempty run of decimal digits.
pub open spec fn digits_value(d: Seq<char>) -> int
    decreases d.len(),
{
    if d.len() == 0 {
        0
    } else {
        digits_value(d.drop_last()) * 10 + ((d.last() as u32) as int - ('0' as u32) as int)
    }
}

pub open spec fn all_digits(d: Seq<char>) -> bool {
    d.len() > 0 && forall|i: int| 0 <= i < d.len() ==> '0' <= #[trigger] d[i] <= '9'
}

/// The integer that `s` writes: an optional `+` or `-`, then decimal digits.
pub open spec fn int_text_value(s: Seq<char>) -> Option<int> {
    if s.len() > 0 && s[0] == '-' && all_digits(s.drop_first()) {
        Some(-digits_value(s.drop_first()))
    } else if s.len() > 0 && s[0] == '+' && all_digits(s.drop_first()) {
        Some(digits_value(s.drop_first()))
    } else if all_digits(s) {
        Some(digits_value(s))
    } else {
        None
    }
}

/// The `i32` that `s` writes, if it writes one in range.
pub open spec fn parsed_i32(s: Seq<char>) -> Option<int> {
    match int_text_value(s) {
        Some(v) => if i32::MIN <= v <= i32::MAX {
            Some(v)
        } else {
            None
        },
        None => None,
    }
}

/// `s` without its leading and trailing whitespace, as `str::trim` gives it.
pub uninterp spec fn trimmed(s: Seq<char>) -> Seq<char>;

/// Relies on `str::trim`: the text without leading and trailing whitespace,
/// which depends on the text alone.
#[verifier::external_body]
fn trim_text(s: &str) -> (r: String)
    ensures
        r@ == trimmed(s@),
{
    s.trim().to_string()
}

/// Relies on `str::parse::<i32>`: an optional sign followed by decimal digits
/// only, whose value fits in an `i32`; anything else is an error.
#[verifier::external_body]
fn parse_i32(s: &str) -> (r: Option<i32>)
    ensures
        match r {
            Some(v) => parsed_i32(s@) == Some(v as int),
            None => parsed_i32(s@) is None,
        },
{
    s.parse::<i32>().ok()
}

/// The ids that the pieces write, in order; pieces that write none are skipped.
pub open spec fn ids_of(pieces: Seq<Seq<char>>) -> Seq<int> {
    pieces.filter_map(|p: Seq<char>| parsed_i32(p))
}

/// The product ids of a comma-separated list: each piece, trimmed, that
/// writes an `i32`, in order.
pub open spec fn requested_id_list(ids: Seq<char>) -> Seq<int> {
    ids_of(split_spec(ids, ',').map_values(|p: Seq<char>| trimmed(p)))
}

/// The ids that the (already trimmed) pieces write, in order, skipping the
/// pieces that write none.
pub fn ids_from_pieces(pieces: &Vec<String>) -> (r: Vec<i32>)
    ensures
        r@.map_values(|v: i32| v as int) == ids_of(pieces@.map_values(|p: String| p@)),
{
    let ghost views = pieces@.map_values(|p: String| p@);
    let mut out: Vec<i32> = Vec::new();
    let mut i: usize = 0;
    while i < pieces.len()
        invariant
            i <= pieces.len(),
            views == pieces@.map_values(|p: String| p@),
            out@.map_values(|v: i32| v as int) == ids_of(views.take(i as int)),
        decreases pieces.len() - i,
    {
        proof {
            assert(views.take(i as int + 1).drop_last() =~= views.take(i as int));
            assert(views.take(i as int + 1).last() == pieces@[i as int]@);
        }
        let parsed = parse_i32(pieces[i].as_str());
        if let Some(v) = parsed {
            out.push(v);
            proof {
                assert(out@.map_values(|v: i32| v as int) =~= ids_of(views.take(i as int)).push(
                    v as int,
                ));
                assert(ids_of(views.take(i as int + 1)) =~= ids_of(views.take(i as int)) + seq![v as int]);
            }
        }
        i = i + 1;
    }
    proof {
        assert(views.take(pieces.len() as int) =~= views);
    }
    out
}

/// The product ids that a comma-separated list names: each piece, trimmed,
/// that writes an `i32`, in order; the other pieces are skipped.
pub fn parse_product_ids(ids: &str) -> (r: Vec<i32>)
    ensures
        r@.map_values(|v: i32| v as int) == requested_id_list(ids@),
{
    let pieces = split_on(ids, ',');
    let mut trimmed_pieces: Vec<String> = Vec::new();
    let mut i: usize = 0;
    while i < pieces.len()
        invariant
            i <= pieces.len(),
            trimmed_pieces.len() == i,
            forall|j: int| 0 <= j < i ==> (#[trigger] trimmed_pieces@[j])@ == trimmed(pieces@[j]@),
        decreases pieces.len() - i,
    {
        trimmed_pieces.push(trim_text(pieces[i].as_str()));
        i = i + 1;
    }
    proof {
        assert(trimmed_pieces@.map_values(|p: String| p@) =~= split_spec(ids@, ',').map_values(
            |p: Seq<char>| trimmed(p),
        ));
    }
    ids_from_pieces(&trimmed_pieces)
}

impl CompareQuery {
    /// The product ids that the query names; an error where it names none.
    pub fn product_ids(&self) -> (r: Result<Vec<i32>, CompareError>)
        ensures
            match r {
                Ok(v) => v@.map_values(|x: i32| x as int) == requested_id_list(self.ids@) && v.len()
                    > 0,
                Err(e) => e == CompareError::NoProductIds && requested_id_list(self.ids@).len() == 0,
            },
    {
        let ids = parse_product_ids(self.ids.as_str());
        if ids.len() == 0 {
            Err(CompareError::NoProductIds)
        } else {
            Ok(ids)
        }
    }
}

/// The category that all the products share: an error where there are no
/// products, or where two of them belong to different categories.
pub fn common_category(products: &[Product]) -> (r: Result<i32, CompareError>)
    ensures
        products.len() == 0 ==> r == Err::<i32, CompareError>(CompareError::NoProductsFound),
        products.len() > 0 ==> match r {
            Ok(c) => c == products[0].category_id && forall|i: int|
                0 <= i < products.len() ==> (#[trigger] products[i]).category_id == c,
            Err(e) => e == CompareError::MixedCategories && exists|i: int|
                0 <= i < products.len() && (#[trigger] products[i]).category_id
                    != products[0].category_id,
        },
{
    if products.len() == 0 {
        return Err(CompareError::NoProductsFound);
    }
    let c = products[0].category_id;
    let mut i: usize = 0;
    while i < products.len()
        invariant
            i <= products.len(),
            c == products[0].category_id,
            forall|j: int| 0 <= j < i ==> (#[trigger] products[j]).category_id == c,
        decreases products.len() - i,
    {
        if products[i].category_id != c {
            assert(products[i as int].category_id != products[0].category_id);
            return Err(CompareError::MixedCategories);
        }
        i = i + 1;
    }
    Ok(c)
}

} // verus!
