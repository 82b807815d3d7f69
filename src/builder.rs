//! The staged output builder: a draft that collects the address, datum and
//! reference script, then a stage that settles the value, then the result.
use crate::assets::{AssetsModel, MultiAsset, Value, ValueModel};
use crate::hash::{blake2b_256_of, hash_plutus_data};
use crate::ledger::{Address, Coin, DatumModel, DatumOption, PlutusData, ScriptRef};
use crate::min_ada::{min_ada_required, min_ada_result, MinAdaError};
use crate::output::{clone_datum, clone_script, datum_view, script_view, OutputModel, TransactionOutput};
use vstd::prelude::*;

verus! {

/// Why an output could not be built.
#[derive(Clone, Copy, Debug, PartialEq, Eq, Structural)]
pub enum OutputBuilderError {
    /// The draft was advanced without an address.
    AddressMissing,
    /// The output was built without a value.
    AmountMissing,
    /// The minimum coin amount could not be computed.
    MinAdaError(MinAdaError),
}

pub open spec fn data_view(d: Option<PlutusData>) -> Option<Seq<u8>> {
    match d {
        Some(x) => Some(x@),
        None => None,
    }
}

fn clone_data(d: &Option<PlutusData>) -> (r: Option<PlutusData>)
    ensures
        data_view(r) == data_view(*d),
{
    match d {
        Some(x) => Some(x.clone()),
        None => None,
    }
}

/// The datum field that refers to `payload` by its digest.
pub open spec fn hash_datum_of(payload: Seq<u8>) -> DatumModel {
    DatumModel::Hash(blake2b_256_of(payload))
}

/// A communication datum, where one is kept, is the payload whose digest
/// the datum field holds.
pub open spec fn datum_consistent(datum: Option<DatumModel>, communication_datum: Option<Seq<u8>>) -> bool {
    communication_datum matches Some(p) ==> datum == Some(hash_datum_of(p))
}

/// What the draft stage holds.
pub struct DraftModel {
    pub address: Option<Seq<u8>>,
    pub datum: Option<DatumModel>,
    pub communication_datum: Option<Seq<u8>>,
    pub script_ref: Option<Seq<u8>>,
}

/// What the value stage holds.
pub struct AmountModel {
    pub address: Seq<u8>,
    pub amount: Option<ValueModel>,
    pub datum: Option<DatumModel>,
    pub script_ref: Option<Seq<u8>>,
    pub communication_datum: Option<Seq<u8>>,
}

/// What a finished build holds.
pub struct ResultModel {
    pub output: OutputModel,
    pub communication_datum: Option<Seq<u8>>,
}

impl DraftModel {
    pub open spec fn empty() -> DraftModel {
        DraftModel { address: None, datum: None, communication_datum: None, script_ref: None }
    }

    pub open spec fn set_address(self, address: Seq<u8>) -> DraftModel {
        DraftModel { address: Some(address), ..self }
    }

    pub open spec fn set_communication_data(self, payload: Seq<u8>) -> DraftModel {
        DraftModel { datum: Some(hash_datum_of(payload)), communication_datum: Some(payload), ..self }
    }

    pub open spec fn set_data(self, datum: DatumModel) -> DraftModel {
        DraftModel { datum: Some(datum), communication_datum: None, ..self }
    }

    pub open spec fn set_reference_script(self, script_ref: Seq<u8>) -> DraftModel {
        DraftModel { script_ref: Some(script_ref), ..self }
    }

    /// Moving on to the value stage: owed exactly when an address is set.
    pub open spec fn advance(self) -> Result<AmountModel, OutputBuilderError> {
        match self.address {
            Some(address) => Ok(
                AmountModel {
                    address,
                    amount: None,
                    datum: self.datum,
                    script_ref: self.script_ref,
                    communication_datum: self.communication_datum,
                },
            ),
            None => Err(OutputBuilderError::AddressMissing),
        }
    }
}

impl AmountModel {
    pub open spec fn set_value(self, amount: ValueModel) -> AmountModel {
        AmountModel { amount: Some(amount), ..self }
    }

    /// The output that these fields make with `amount`.
    pub open spec fn output_with(self, amount: ValueModel) -> OutputModel {
        OutputModel {
            address: self.address,
            amount,
            datum: self.datum,
            script_ref: self.script_ref,
        }
    }

    /// The output that the first estimate of the minimum coin is taken on:
    /// the value set so far, or nothing at all.
    pub open spec fn provisional_output(self) -> OutputModel {
        self.output_with(
            match self.amount {
                Some(v) => v,
                None => ValueModel { coin: 0, assets: Seq::empty() },
            },
        )
    }

    /// The coin amount that the two-pass resolution settles on for `assets`:
    /// the minimum of the provisional output, then the minimum of that output
    /// carrying `assets` and the first minimum.
    pub open spec fn resolve_coin(self, assets: AssetsModel, coins_per_utxo_byte: u64) -> Result<Coin, MinAdaError> {
        let first = self.provisional_output();
        match min_ada_result(first, coins_per_utxo_byte) {
            Ok(estimate) => min_ada_result(
                first.with_amount(ValueModel { coin: estimate, assets }),
                coins_per_utxo_byte,
            ),
            Err(e) => Err(e),
        }
    }

    /// The value stage after setting `assets` with the coin they resolve to.
    pub open spec fn resolve(self, assets: AssetsModel, coins_per_utxo_byte: u64) -> Result<AmountModel, OutputBuilderError> {
        match self.resolve_coin(assets, coins_per_utxo_byte) {
            Ok(coin) => Ok(self.set_value(ValueModel { coin, assets })),
            Err(e) => Err(OutputBuilderError::MinAdaError(e)),
        }
    }

    /// The finished build: owed exactly when a value is set.
    pub open spec fn build(self) -> Result<ResultModel, OutputBuilderError> {
        match self.amount {
            Some(v) => Ok(
                ResultModel { output: self.output_with(v), communication_datum: self.communication_datum },
            ),
            None => Err(OutputBuilderError::AmountMissing),
        }
    }
}

/// The draft stage of an output.
#[derive(Debug)]
pub struct TransactionOutputBuilder {
    address: Option<Address>,
    datum: Option<DatumOption>,
    communication_datum: Option<PlutusData>,
    script_ref: Option<ScriptRef>,
}

impl View for TransactionOutputBuilder {
    type V = DraftModel;

    closed spec fn view(&self) -> DraftModel {
        DraftModel {
            address: match self.address {
                Some(a) => Some(a@),
                None => None,
            },
            datum: datum_view(self.datum),
            communication_datum: data_view(self.communication_datum),
            script_ref: script_view(self.script_ref),
        }
    }
}

impl TransactionOutputBuilder {
    #[verifier::type_invariant]
    spec fn inv(self) -> bool {
        datum_consistent(self@.datum, self@.communication_datum)
    }

    /// An empty draft.
    pub fn new() -> (r: Self)
        ensures
            r@ == DraftModel::empty(),
    {
        TransactionOutputBuilder { address: None, datum: None, communication_datum: None, script_ref: None }
    }

    pub fn with_address(&self, address: &Address) -> (r: Self)
        ensures
            r@ == self@.set_address(address@),
    {
        proof {
            use_type_invariant(self);
        }
        TransactionOutputBuilder {
            address: Some(address.clone()),
            datum: clone_datum(&self.datum),
            communication_datum: clone_data(&self.communication_datum),
            script_ref: clone_script(&self.script_ref),
        }
    }

    /// Refers to `datum` by its digest in the output, and keeps `datum`
    /// itself to be published beside the transaction.
    pub fn with_communication_data(self, datum: PlutusData) -> (r: Self)
        ensures
            r@ == self@.set_communication_data(datum@),
    {
        let hash = hash_plutus_data(&datum);
        let TransactionOutputBuilder { address, datum: _, communication_datum: _, script_ref } = self;
        TransactionOutputBuilder {
            address,
            datum: Some(DatumOption::new_hash(hash)),
            communication_datum: Some(datum),
            script_ref,
        }
    }

    /// Sets the datum field, and drops any communication datum.
    pub fn with_data(self, datum: DatumOption) -> (r: Self)
        ensures
            r@ == self@.set_data(datum@),
    {
        let TransactionOutputBuilder { address, datum: _, communication_datum: _, script_ref } = self;
        TransactionOutputBuilder { address, datum: Some(datum), communication_datum: None, script_ref }
    }

    pub fn with_reference_script(self, script_ref: ScriptRef) -> (r: Self)
        ensures
            r@ == self@.set_reference_script(script_ref@),
    {
        proof {
            use_type_invariant(&self);
        }
        let TransactionOutputBuilder { address, datum, communication_datum, script_ref: _ } = self;
        TransactionOutputBuilder { address, datum, communication_datum, script_ref: Some(script_ref) }
    }

    /// Moves on to the value stage; fails with `AddressMissing` where no
    /// address is set.
    pub fn next(self) -> (r: Result<TransactionOutputAmountBuilder, OutputBuilderError>)
        ensures
            amount_result_view(r) == self@.advance(),
    {
        proof {
            use_type_invariant(&self);
        }
        let TransactionOutputBuilder { address, datum, communication_datum, script_ref } = self;
        match address {
            Some(address) => Ok(
                TransactionOutputAmountBuilder {
                    address,
                    amount: None,
                    datum,
                    script_ref,
                    communication_datum,
                },
            ),
            None => Err(OutputBuilderError::AddressMissing),
        }
    }
}

/// The value stage of an output.
#[derive(Debug)]
pub struct TransactionOutputAmountBuilder {
    address: Address,
    amount: Option<Value>,
    datum: Option<DatumOption>,
    script_ref: Option<ScriptRef>,
    communication_datum: Option<PlutusData>,
}

pub open spec fn amount_result_view(r: Result<TransactionOutputAmountBuilder, OutputBuilderError>) -> Result<AmountModel, OutputBuilderError> {
    match r {
        Ok(b) => Ok(b@),
        Err(e) => Err(e),
    }
}

pub open spec fn build_result_view(r: Result<SingleOutputBuilderResult, OutputBuilderError>) -> Result<ResultModel, OutputBuilderError> {
    match r {
        Ok(b) => Ok(b@),
        Err(e) => Err(e),
    }
}

impl View for TransactionOutputAmountBuilder {
    type V = AmountModel;

    closed spec fn view(&self) -> AmountModel {
        AmountModel {
            address: self.address@,
            amount: match self.amount {
                Some(v) => Some(v@),
                None => None,
            },
            datum: datum_view(self.datum),
            script_ref: script_view(self.script_ref),
            communication_datum: data_view(self.communication_datum),
        }
    }
}

impl TransactionOutputAmountBuilder {
    #[verifier::type_invariant]
    spec fn inv(self) -> bool {
        datum_consistent(self@.datum, self@.communication_datum)
    }

    pub fn with_value(self, amount: Value) -> (r: Self)
        ensures
            r@ == self@.set_value(amount@),
    {
        proof {
            use_type_invariant(&self);
        }
        let TransactionOutputAmountBuilder { address, amount: _, datum, script_ref, communication_datum } =
            self;
        TransactionOutputAmountBuilder { address, amount: Some(amount), datum, script_ref, communication_datum }
    }

    /// Sets the value to `multiasset` with the least coin amount that the
    /// minimum-value rule asks of the output: the rule is taken on the output
    /// as it stands, then again on the output carrying `multiasset` and that
    /// first estimate. An error of the rule is passed on as `MinAdaError`.
    pub fn with_asset_and_min_required_coin(self, multiasset: MultiAsset, coins_per_utxo_byte: Coin) -> (r:
        Result<Self, OutputBuilderError>)
        ensures
            amount_result_view(r) == self@.resolve(multiasset@, coins_per_utxo_byte),
    {
        let amount = match &self.amount {
            Some(v) => v.clone(),
            None => Value::zero(),
        };
        let mut min_output = TransactionOutput::new(
            self.address.clone(),
            amount,
            clone_datum(&self.datum),
            clone_script(&self.script_ref),
        );
        let min_possible_coin = match min_ada_required(&min_output, coins_per_utxo_byte) {
            Ok(c) => c,
            Err(e) => {
                return Err(OutputBuilderError::MinAdaError(e));
            },
        };
        min_output.set_amount(Value::new(min_possible_coin, multiasset.clone()));
        let required_coin = match min_ada_required(&min_output, coins_per_utxo_byte) {
            Ok(c) => c,
            Err(e) => {
                return Err(OutputBuilderError::MinAdaError(e));
            },
        };
        Ok(self.with_value(Value::new(required_coin, multiasset)))
    }

    /// The finished output with the communication datum, if any; fails with
    /// `AmountMissing` where no value is set.
    pub fn build(&self) -> (r: Result<SingleOutputBuilderResult, OutputBuilderError>)
        ensures
            build_result_view(r) == self@.build(),
    {
        let amount = match &self.amount {
            Some(v) => v.clone(),
            None => {
                return Err(OutputBuilderError::AmountMissing);
            },
        };
        let output = TransactionOutput::new(
            self.address.clone(),
            amount,
            clone_datum(&self.datum),
            clone_script(&self.script_ref),
        );
        Ok(SingleOutputBuilderResult { output, communication_datum: clone_data(&self.communication_datum) })
    }
}

impl TransactionOutputAmountBuilder {
    pub fn address(&self) -> (r: Address)
        ensures
            r@ == self@.address,
    {
        self.address.clone()
    }

    pub fn amount(&self) -> (r: Option<Value>)
        ensures
            r matches Some(v) ==> self@.amount == Some(v@),
            r is None ==> self@.amount is None,
    {
        match &self.amount {
            Some(v) => Some(v.clone()),
            None => None,
        }
    }

    pub fn datum(&self) -> (r: Option<DatumOption>)
        ensures
            datum_view(r) == self@.datum,
    {
        clone_datum(&self.datum)
    }

    pub fn script_ref(&self) -> (r: Option<ScriptRef>)
        ensures
            script_view(r) == self@.script_ref,
    {
        clone_script(&self.script_ref)
    }

    pub fn communication_datum(&self) -> (r: Option<PlutusData>)
        ensures
            data_view(r) == self@.communication_datum,
    {
        clone_data(&self.communication_datum)
    }
}

impl Clone for TransactionOutputBuilder {
    fn clone(&self) -> (r: Self)
        ensures
            r@ == self@,
    {
        proof {
            use_type_invariant(self);
        }
        TransactionOutputBuilder {
            address: match &self.address {
                Some(a) => Some(a.clone()),
                None => None,
            },
            datum: clone_datum(&self.datum),
            communication_datum: clone_data(&self.communication_datum),
            script_ref: clone_script(&self.script_ref),
        }
    }
}

impl Clone for TransactionOutputAmountBuilder {
    fn clone(&self) -> (r: Self)
        ensures
            r@ == self@,
    {
        proof {
            use_type_invariant(self);
        }
        TransactionOutputAmountBuilder {
            address: self.address.clone(),
            amount: match &self.amount {
                Some(v) => Some(v.clone()),
                None => None,
            },
            datum: clone_datum(&self.datum),
            script_ref: clone_script(&self.script_ref),
            communication_datum: clone_data(&self.communication_datum),
        }
    }
}

impl Clone for SingleOutputBuilderResult {
    fn clone(&self) -> (r: Self)
        ensures
            r@ == self@,
    {
        SingleOutputBuilderResult {
            output: self.output.clone(),
            communication_datum: clone_data(&self.communication_datum),
        }
    }
}

impl Default for TransactionOutputBuilder {
    fn default() -> (r: Self)
        ensures
            r@ == DraftModel::empty(),
    {
        TransactionOutputBuilder::new()
    }
}

/// A finished output, with the datum to publish beside the transaction
/// where the output refers to one by digest.
#[derive(Debug)]
pub struct SingleOutputBuilderResult {
    output: TransactionOutput,
    communication_datum: Option<PlutusData>,
}

impl View for SingleOutputBuilderResult {
    type V = ResultModel;

    closed spec fn view(&self) -> ResultModel {
        ResultModel { output: self.output@, communication_datum: data_view(self.communication_datum) }
    }
}

impl SingleOutputBuilderResult {
    /// A result for an output built elsewhere, with no communication datum.
    pub fn new(output: &TransactionOutput) -> (r: SingleOutputBuilderResult)
        ensures
            r@ == (ResultModel { output: output@, communication_datum: None }),
    {
        SingleOutputBuilderResult { output: output.clone(), communication_datum: None }
    }

    pub fn set_communication_datum(&mut self, datum: &PlutusData)
        ensures
            final(self)@ == (ResultModel { communication_datum: Some(datum@), ..old(self)@ }),
    {
        self.communication_datum = Some(datum.clone());
    }

    pub fn output(&self) -> (r: TransactionOutput)
        ensures
            r@ == self@.output,
    {
        self.output.clone()
    }

    pub fn communication_datum(&self) -> (r: Option<PlutusData>)
        ensures
            data_view(r) == self@.communication_datum,
    {
        clone_data(&self.communication_datum)
    }
}

} // verus!
