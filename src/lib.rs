use vstd::prelude::*;

pub mod booking;
pub mod error;
pub mod models;
pub mod phone;
pub mod store;
pub mod whitelist;

verus! {

} // verus!
