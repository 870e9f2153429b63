//! Transactions and the outputs they spend, as plain values.

use vstd::prelude::*;

use kaspa_consensus_core::hashing::sighash::{calc_schnorr_signature_hash, SigHashReusedValuesUnsync};
use kaspa_consensus_core::hashing::sighash_type::SIG_HASH_ALL;
use kaspa_consensus_core::tx as kaspa;

use crate::hash::{self, Hash32};

verus! {

/// An output of an earlier transaction.
#[derive(Clone, Copy, Debug, PartialEq, Eq)]
pub struct Outpoint {
    pub transaction_id: Hash32,
    pub index: u32,
}

/// What an input commits to for its script, opaque: a count of signature operations or a compute
/// budget.
#[verifier::external_type_specification]
#[verifier::external_body]
pub struct ExComputeCommit(kaspa_consensus_core::tx::ComputeCommit);

/// The covenant that an output belongs to, and the input that authorizes it.
#[derive(Clone, Copy, Debug, PartialEq, Eq)]
pub struct CovenantBinding {
    pub authorizing_input: u16,
    pub covenant_id: Hash32,
}

/// A transaction input.
#[derive(Debug, PartialEq, Eq)]
pub struct TxInput {
    pub previous_outpoint: Outpoint,
    pub signature_script: Vec<u8>,
    pub sequence: u64,
    pub compute_commit: kaspa_consensus_core::tx::ComputeCommit,
}

/// A transaction output.
#[derive(Debug, PartialEq, Eq)]
pub struct TxOutput {
    pub value: u64,
    pub script_version: u16,
    pub script: Vec<u8>,
    pub covenant: Option<CovenantBinding>,
}

/// A transaction.
#[derive(Debug, PartialEq, Eq)]
pub struct ChainTx {
    pub version: u16,
    pub inputs: Vec<TxInput>,
    pub outputs: Vec<TxOutput>,
    pub lock_time: u64,
    pub subnetwork_id: [u8; 20],
    pub gas: u64,
    pub payload: Vec<u8>,
    pub storage_mass: u64,
}

/// An unspent output.
#[derive(Debug, PartialEq, Eq)]
pub struct Unspent {
    pub amount: u64,
    pub script_version: u16,
    pub script: Vec<u8>,
    pub block_daa_score: u64,
    pub is_coinbase: bool,
    pub covenant_id: Option<Hash32>,
}

/// The content of a transaction input.
pub ghost struct TxInputView {
    pub previous_outpoint: Outpoint,
    pub signature_script: Seq<u8>,
    pub sequence: u64,
    pub compute_commit: kaspa_consensus_core::tx::ComputeCommit,
}

/// The content of a transaction output.
pub ghost struct TxOutputView {
    pub value: u64,
    pub script_version: u16,
    pub script: Seq<u8>,
    pub covenant: Option<CovenantBinding>,
}

/// The content of a transaction.
#[verifier::ext_equal]
pub ghost struct ChainTxView {
    pub version: u16,
    pub inputs: Seq<TxInputView>,
    pub outputs: Seq<TxOutputView>,
    pub lock_time: u64,
    pub subnetwork_id: Seq<u8>,
    pub gas: u64,
    pub payload: Seq<u8>,
    pub storage_mass: u64,
}

/// The content of an unspent output.
pub ghost struct UnspentView {
    pub amount: u64,
    pub script_version: u16,
    pub script: Seq<u8>,
    pub block_daa_score: u64,
    pub is_coinbase: bool,
    pub covenant_id: Option<Hash32>,
}

impl View for TxInput {
    type V = TxInputView;

    open spec fn view(&self) -> TxInputView {
        TxInputView {
            previous_outpoint: self.previous_outpoint,
            signature_script: self.signature_script@,
            sequence: self.sequence,
            compute_commit: self.compute_commit,
        }
    }
}

impl View for TxOutput {
    type V = TxOutputView;

    open spec fn view(&self) -> TxOutputView {
        TxOutputView {
            value: self.value,
            script_version: self.script_version,
            script: self.script@,
            covenant: self.covenant,
        }
    }
}

impl View for ChainTx {
    type V = ChainTxView;

    open spec fn view(&self) -> ChainTxView {
        ChainTxView {
            version: self.version,
            inputs: self.inputs@.map_values(|i: TxInput| i@),
            outputs: self.outputs@.map_values(|o: TxOutput| o@),
            lock_time: self.lock_time,
            subnetwork_id: self.subnetwork_id@,
            gas: self.gas,
            payload: self.payload@,
            storage_mass: self.storage_mass,
        }
    }
}

impl View for Unspent {
    type V = UnspentView;

    open spec fn view(&self) -> UnspentView {
        UnspentView {
            amount: self.amount,
            script_version: self.script_version,
            script: self.script@,
            block_daa_score: self.block_daa_score,
            is_coinbase: self.is_coinbase,
            covenant_id: self.covenant_id,
        }
    }
}

/// A transaction as `kaspa_consensus_core` holds it, opaque.
#[verifier::external_type_specification]
#[verifier::external_body]
pub struct ExTransaction(kaspa_consensus_core::tx::Transaction);

/// What a `kaspa_consensus_core` transaction holds.
pub uninterp spec fn kaspa_content(tx: kaspa_consensus_core::tx::Transaction) -> ChainTxView;

/// The id that a `kaspa_consensus_core` transaction carries.
pub uninterp spec fn kaspa_id(tx: kaspa_consensus_core::tx::Transaction) -> Seq<u8>;

/// The id of a transaction with this content, as Kaspa's consensus hashes it.
pub uninterp spec fn transaction_id(tx: ChainTxView) -> Seq<u8>;

/// Calls `kaspa_consensus_core::tx::Transaction::new_with_mass` on the fields of `tx`.
///
/// Trusted: the transaction that comes back holds those fields, one for one, and carries the id
/// that the call computes; the id depends on the fields alone, and is named `transaction_id`.
#[verifier::external_body]
fn kaspa_transaction(tx: &ChainTx) -> (built: kaspa_consensus_core::tx::Transaction)
    ensures
        kaspa_content(built) == tx@,
        kaspa_id(built) == transaction_id(tx@),
{
    let inputs = tx.inputs.iter().map(|i| kaspa::TransactionInput::new_with_mass(
        kaspa::TransactionOutpoint::new(i.previous_outpoint.transaction_id.bytes.into(), i.previous_outpoint.index),
        i.signature_script.clone(), i.sequence, i.compute_commit));
    let outputs = tx.outputs.iter().map(|o| kaspa::TransactionOutput::with_covenant(
        o.value, kaspa::ScriptPublicKey::from_vec(o.script_version, o.script.clone()),
        o.covenant.map(|c| kaspa::CovenantBinding::new(c.authorizing_input, c.covenant_id.bytes.into()))));
    kaspa::Transaction::new_with_mass(tx.version, inputs.collect(), outputs.collect(), tx.lock_time, tx.subnetwork_id.into(), tx.gas, tx.payload.clone(), tx.storage_mass)
}

/// Calls `kaspa_consensus_core::tx::Transaction::id`, which reads the id that the transaction
/// carries.
#[verifier::external_body]
fn kaspa_transaction_id(tx: &kaspa_consensus_core::tx::Transaction) -> (id: [u8; 32])
    ensures
        id@ == kaspa_id(*tx),
{
    tx.id().as_bytes()
}

/// The digest that a Schnorr signature of an input signs under `SIG_HASH_ALL`.
pub uninterp spec fn schnorr_digest(
    tx: ChainTxView,
    entries: Seq<UnspentView>,
    input_index: int,
) -> Seq<u8>;

/// Calls `kaspa_consensus_core::hashing::sighash::calc_schnorr_signature_hash` with `SIG_HASH_ALL`
/// on the transaction populated with the entries that its inputs spend.
///
/// Trusted: the digest depends on the content of the arguments alone, and is named
/// `schnorr_digest`. The call fails where the entries do not match the inputs in number or the
/// input does not exist, which `requires` leaves out.
#[verifier::external_body]
fn kaspa_schnorr_digest(
    tx: &kaspa_consensus_core::tx::Transaction,
    entries: &Vec<Unspent>,
    input_index: usize,
) -> (digest: [u8; 32])
    requires
        entries@.len() == kaspa_content(*tx).inputs.len(),
        input_index < entries@.len(),
    ensures
        digest@ == schnorr_digest(kaspa_content(*tx), unspent_views(entries@), input_index as int),
{
    let utxos = entries.iter().map(|e| kaspa::UtxoEntry::new(
        e.amount, kaspa::ScriptPublicKey::from_vec(e.script_version, e.script.clone()),
        e.block_daa_score, e.is_coinbase, e.covenant_id.map(|id| id.bytes.into())));
    let populated = kaspa::PopulatedTransaction::new(tx, utxos.collect());
    calc_schnorr_signature_hash(&populated, input_index, SIG_HASH_ALL, &SigHashReusedValuesUnsync::new()).as_bytes()
}

/// The contents of unspent outputs.
pub open spec fn unspent_views(entries: Seq<Unspent>) -> Seq<UnspentView> {
    entries.map_values(|e: Unspent| e@)
}

/// The digest that a Schnorr signature of an input signs, where the inputs spend the given entries.
pub fn signature_digest(
    tx: &ChainTx,
    entries: &Vec<Unspent>,
    input_index: usize,
) -> (digest: [u8; 32])
    requires
        entries@.len() == tx.inputs@.len(),
        input_index < entries@.len(),
    ensures
        digest@ == schnorr_digest(tx@, unspent_views(entries@), input_index as int),
{
    kaspa_schnorr_digest(&kaspa_transaction(tx), entries, input_index)
}

impl ChainTx {
    /// The id of the transaction.
    pub fn id(&self) -> (id: Hash32)
        ensures
            id@ == transaction_id(self@),
    {
        Hash32 { bytes: kaspa_transaction_id(&kaspa_transaction(self)) }
    }
}

/// The outpoint of an output of a transaction.
pub open spec fn output_of(tx: ChainTxView, index: u32) -> Outpoint {
    Outpoint { transaction_id: hash::hash_of(transaction_id(tx)), index }
}

impl ChainTx {
    /// The outpoint of an output of the transaction.
    pub fn outpoint(&self, index: u32) -> (outpoint: Outpoint)
        ensures
            outpoint == output_of(self@, index),
    {
        let transaction_id: Hash32 = self.id();
        proof {
            hash::lemma_hash_of(transaction_id);
        }
        Outpoint { transaction_id, index }
    }
}

/// Copies bytes.
pub fn copy_bytes(bytes: &Vec<u8>) -> (copy: Vec<u8>)
    ensures
        copy@ == bytes@,
{
    let mut copy: Vec<u8> = Vec::new();
    copy.extend_from_slice(bytes.as_slice());
    assert(copy@ =~= bytes@);
    copy
}

impl Clone for TxInput {
    fn clone(&self) -> (copy: TxInput)
        ensures
            copy@ == self@,
    {
        TxInput {
            previous_outpoint: self.previous_outpoint,
            signature_script: copy_bytes(&self.signature_script),
            sequence: self.sequence,
            compute_commit: self.compute_commit,
        }
    }
}

impl Clone for TxOutput {
    fn clone(&self) -> (copy: TxOutput)
        ensures
            copy@ == self@,
    {
        TxOutput {
            value: self.value,
            script_version: self.script_version,
            script: copy_bytes(&self.script),
            covenant: self.covenant,
        }
    }
}

impl Clone for Unspent {
    fn clone(&self) -> (copy: Unspent)
        ensures
            copy@ == self@,
    {
        Unspent {
            amount: self.amount,
            script_version: self.script_version,
            script: copy_bytes(&self.script),
            block_daa_score: self.block_daa_score,
            is_coinbase: self.is_coinbase,
            covenant_id: self.covenant_id,
        }
    }
}

impl Clone for ChainTx {
    fn clone(&self) -> (copy: ChainTx)
        ensures
            copy@ == self@,
    {
        let mut inputs: Vec<TxInput> = Vec::new();
        let mut i: usize = 0;
        while i < self.inputs.len()
            invariant
                i <= self.inputs@.len(),
                inputs@.len() == i,
                forall|j: int| 0 <= j < i ==> (#[trigger] inputs@[j])@ == self.inputs@[j]@,
            decreases self.inputs@.len() - i,
        {
            inputs.push(self.inputs[i].clone());
            i += 1;
        }
        let mut outputs: Vec<TxOutput> = Vec::new();
        let mut k: usize = 0;
        while k < self.outputs.len()
            invariant
                k <= self.outputs@.len(),
                outputs@.len() == k,
                forall|j: int| 0 <= j < k ==> (#[trigger] outputs@[j])@ == self.outputs@[j]@,
            decreases self.outputs@.len() - k,
        {
            outputs.push(self.outputs[k].clone());
            k += 1;
        }
        let copy = ChainTx {
            version: self.version,
            inputs,
            outputs,
            lock_time: self.lock_time,
            subnetwork_id: self.subnetwork_id,
            gas: self.gas,
            payload: copy_bytes(&self.payload),
            storage_mass: self.storage_mass,
        };
        assert(copy@.inputs =~= self@.inputs);
        assert(copy@.outputs =~= self@.outputs);
        copy
    }
}

} // verus!
