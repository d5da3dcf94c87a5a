//! The addresses of the processes, by id: stakeholders, coordinators and
//! election peers each have addresses of their own.
use vstd::prelude::*;
use crate::texto::{decimal, escribir_decimal};

verus! {

/// Maps process ids to addresses.
pub struct DNS {}

impl DNS {
    /// The address of stakeholder `id`.
    pub fn direccion_webservice(id: &usize) -> (r: String)
        ensures
            r@ == "127.0.0.1:500"@ + decimal(*id as nat),
    {
        let mut r = String::from_str("127.0.0.1:500");
        escribir_decimal(&mut r, *id as u64);
        r
    }

    /// The address at which node `id` talks with the stakeholders.
    pub fn direccion_alglobo(id: &usize) -> (r: String)
        ensures
            r@ == "127.0.0.1:600"@ + decimal(*id as nat),
    {
        let mut r = String::from_str("127.0.0.1:600");
        escribir_decimal(&mut r, *id as u64);
        r
    }

    /// The address at which node `id` talks with the other nodes.
    pub fn direccion_lider(id: &usize) -> (r: String)
        ensures
            r@ == "127.0.0.1:700"@ + decimal(*id as nat),
    {
        let mut r = String::from_str("127.0.0.1:700");
        escribir_decimal(&mut r, *id as u64);
        r
    }
}

} // verus!
