//! The resolved type descriptor attached to statement parameters and result
//! columns. The engine itself only reads a type's wire identifier (its oid)
//! and its name; everything richer lives in the catalog layer outside this
//! crate.

use vstd::prelude::*;

verus! {

/// Mathematical value of a [`PgType`].
pub ghost struct PgTypeV {
    pub name: Seq<char>,
    pub oid: u32,
}

/// A resolved PostgreSQL type descriptor: a name and the wire identifier
/// (oid) the server uses for it.
pub struct PgType {
    name: String,
    oid: u32,
}

impl View for PgType {
    type V = PgTypeV;

    closed spec fn view(&self) -> PgTypeV {
        PgTypeV { name: self.name@, oid: self.oid }
    }
}

impl DeepView for PgType {
    type V = PgTypeV;

    open spec fn deep_view(&self) -> PgTypeV {
        self.view()
    }
}

impl PgType {
    pub fn new(name: String, oid: u32) -> (t: PgType)
        ensures
            t@ == (PgTypeV { name: name@, oid }),
    {
        PgType { name, oid }
    }

    /// The type's name, as reported by the catalog.
    pub fn name(&self) -> (r: &str)
        ensures
            r@ == self@.name,
    {
        self.name.as_str()
    }

    /// The wire identifier the server knows this type by.
    pub fn oid(&self) -> (r: u32)
        ensures
            r == self@.oid,
    {
        self.oid
    }
}

impl Clone for PgType {
    fn clone(&self) -> (r: Self)
        ensures
            r@ == self@,
    {
        PgType { name: self.name.clone(), oid: self.oid }
    }
}

} // verus!
