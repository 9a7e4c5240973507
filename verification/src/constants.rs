//! The constants of the Poseidon permutation that every oracle shares.
use crate::field::{FieldElement, FieldId};
use crate::sponge::{
    all_in_field, base_sponge, derive_base_table, derive_scalar_table, poseidon_sponge,
    scalar_sponge, values, BaseTable, ScalarTable,
};
use vstd::prelude::*;

verus! {

/// The largest number of elements that one absorb phase of the sponge takes.
pub const MAX_ABSORBS: usize = 0x7fff_ffff;

/// The table of one field.
#[derive(Debug)]
pub(crate) enum Table {
    Scalar(ScalarTable),
    Base(BaseTable),
}

/// The constants of the Poseidon sponge of rate 24 at standard strength, over
/// one field of the cycle.
///
/// They are derived from the field alone, are never changed after that, and
/// are shared by cloning.
#[derive(Debug)]
pub struct PoseidonConstantsCircuit {
    table: Table,
}

impl PoseidonConstantsCircuit {
    /// The field that the constants belong to.
    pub closed spec fn spec_field(&self) -> FieldId {
        match self.table {
            Table::Scalar(_) => FieldId::Bn256Scalar,
            Table::Base(_) => FieldId::Bn256Base,
        }
    }

    /// The table of the scalar field, if the constants are of that field.
    pub closed spec fn spec_scalar_table(&self) -> Option<ScalarTable> {
        match self.table {
            Table::Scalar(t) => Some(t),
            Table::Base(_) => None,
        }
    }

    /// The table of the base field, if the constants are of that field.
    pub closed spec fn spec_base_table(&self) -> Option<BaseTable> {
        match self.table {
            Table::Scalar(_) => None,
            Table::Base(t) => Some(t),
        }
    }

    /// The constants of `field`.
    pub fn default(field: FieldId) -> (r: Self)
        ensures
            r.spec_field() == field,
    {
        match field {
            FieldId::Bn256Scalar => PoseidonConstantsCircuit {
                table: Table::Scalar(derive_scalar_table()),
            },
            FieldId::Bn256Base => PoseidonConstantsCircuit {
                table: Table::Base(derive_base_table()),
            },
        }
    }

    /// The field that the constants belong to.
    pub fn field(&self) -> (r: FieldId)
        ensures
            r == self.spec_field(),
    {
        match &self.table {
            Table::Scalar(_) => FieldId::Bn256Scalar,
            Table::Base(_) => FieldId::Bn256Base,
        }
    }

    /// The table of the scalar field, if the constants are of that field.
    pub fn scalar_table(&self) -> (r: Option<&ScalarTable>)
        ensures
            r.is_some() <==> self.spec_field() == FieldId::Bn256Scalar,
            match r {
                Some(t) => self.spec_scalar_table() == Some(*t),
                None => self.spec_scalar_table().is_none(),
            },
    {
        match &self.table {
            Table::Scalar(t) => Some(t),
            Table::Base(_) => None,
        }
    }

    /// The table of the base field, if the constants are of that field.
    pub fn base_table(&self) -> (r: Option<&BaseTable>)
        ensures
            r.is_some() <==> self.spec_field() == FieldId::Bn256Base,
            match r {
                Some(t) => self.spec_base_table() == Some(*t),
                None => self.spec_base_table().is_none(),
            },
    {
        match &self.table {
            Table::Scalar(_) => None,
            Table::Base(t) => Some(t),
        }
    }

    /// Runs the sponge once over `inputs`: one absorb phase that takes them
    /// all, in order, then one squeeze phase of a single element.
    pub(crate) fn hash(&self, inputs: &Vec<FieldElement>) -> (r: FieldElement)
        requires
            inputs@.len() <= MAX_ABSORBS,
            all_in_field(inputs@, self.spec_field()),
        ensures
            r.spec_field() == self.spec_field(),
            r@ == poseidon_sponge(self.spec_field(), values(inputs@)),
    {
        let absorb_len: u32 = inputs.len() as u32;
        let squeeze_len: u32 = 1;
        match &self.table {
            Table::Scalar(t) => scalar_sponge(t, absorb_len, squeeze_len, inputs),
            Table::Base(t) => base_sponge(t, absorb_len, squeeze_len, inputs),
        }
    }
}

impl Clone for PoseidonConstantsCircuit {
    fn clone(&self) -> (r: Self)
        ensures
            r == *self,
    {
        match &self.table {
            Table::Scalar(t) => PoseidonConstantsCircuit { table: Table::Scalar(t.clone()) },
            Table::Base(t) => PoseidonConstantsCircuit { table: Table::Base(t.clone()) },
        }
    }
}

impl PartialEq for PoseidonConstantsCircuit {
    /// Two sets of constants are equal when they are of the same field: the
    /// constants of a field are derived from the field alone.
    fn eq(&self, other: &Self) -> (r: bool) {
        self.field() == other.field()
    }
}

impl Eq for PoseidonConstantsCircuit {

}

impl vstd::std_specs::cmp::PartialEqSpecImpl for PoseidonConstantsCircuit {
    open spec fn obeys_eq_spec() -> bool {
        true
    }

    open spec fn eq_spec(&self, other: &Self) -> bool {
        self.spec_field() == other.spec_field()
    }
}

} // verus!
