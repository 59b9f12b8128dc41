use vstd::prelude::*;

pub mod about;
pub mod compare;
pub mod db;
pub mod decimal;
pub mod json;
pub mod models;
pub mod request;
pub mod schemas;
pub mod search;
pub mod text;

verus! {

} // verus!
