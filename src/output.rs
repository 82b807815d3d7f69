//! The assembled output record.
use crate::assets::{Value, ValueModel};
use crate::ledger::{Address, DatumModel, DatumOption, ScriptRef};
use vstd::prelude::*;

verus! {

/// What a `TransactionOutput` holds.
pub struct OutputModel {
    pub address: Seq<u8>,
    pub amount: ValueModel,
    pub datum: Option<DatumModel>,
    pub script_ref: Option<Seq<u8>>,
}

impl OutputModel {
    /// The same output carrying `amount` instead.
    pub open spec fn with_amount(self, amount: ValueModel) -> OutputModel {
        OutputModel { amount, ..self }
    }
}

pub open spec fn datum_view(d: Option<DatumOption>) -> Option<DatumModel> {
    match d {
        Some(x) => Some(x@),
        None => None,
    }
}

pub open spec fn script_view(s: Option<ScriptRef>) -> Option<Seq<u8>> {
    match s {
        Some(x) => Some(x@),
        None => None,
    }
}

pub fn clone_datum(d: &Option<DatumOption>) -> (r: Option<DatumOption>)
    ensures
        datum_view(r) == datum_view(*d),
{
    match d {
        Some(x) => Some(x.clone()),
        None => None,
    }
}

pub fn clone_script(s: &Option<ScriptRef>) -> (r: Option<ScriptRef>)
    ensures
        script_view(r) == script_view(*s),
{
    match s {
        Some(x) => Some(x.clone()),
        None => None,
    }
}

/// A ledger output: an address, the value it receives, and optionally a
/// datum and a reference script.
#[derive(Debug)]
pub struct TransactionOutput {
    pub address: Address,
    pub amount: Value,
    pub datum_option: Option<DatumOption>,
    pub script_reference: Option<ScriptRef>,
}

impl View for TransactionOutput {
    type V = OutputModel;

    open spec fn view(&self) -> OutputModel {
        OutputModel {
            address: self.address@,
            amount: self.amount@,
            datum: datum_view(self.datum_option),
            script_ref: script_view(self.script_reference),
        }
    }
}

impl TransactionOutput {
    pub fn new(
        address: Address,
        amount: Value,
        datum_option: Option<DatumOption>,
        script_reference: Option<ScriptRef>,
    ) -> (r: TransactionOutput)
        ensures
            r@ == (OutputModel {
                address: address@,
                amount: amount@,
                datum: datum_view(datum_option),
                script_ref: script_view(script_reference),
            }),
    {
        TransactionOutput { address, amount, datum_option, script_reference }
    }

    /// Replaces the value that the output carries.
    pub fn set_amount(&mut self, amount: Value)
        ensures
            final(self)@ == old(self)@.with_amount(amount@),
    {
        self.amount = amount;
    }
}

impl Clone for TransactionOutput {
    fn clone(&self) -> (r: Self)
        ensures
            r@ == self@,
    {
        TransactionOutput {
            address: self.address.clone(),
            amount: self.amount.clone(),
            datum_option: clone_datum(&self.datum_option),
            script_reference: clone_script(&self.script_reference),
        }
    }
}

} // verus!
