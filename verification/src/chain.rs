//! Transaction inputs and witnesses.

use vstd::prelude::*;
use crate::types::{BlockId, TxId};

verus! {

/// An amount of coins or tokens, in atoms.
#[derive(Debug, Clone, Copy, PartialEq, Eq, PartialOrd, Ord, Structural)]
pub struct Amount(pub u128);

impl Amount {
    pub fn from_atoms(atoms: u128) -> (r: Self)
        ensures
            r.0 == atoms,
    {
        Amount(atoms)
    }

    pub fn into_atoms(self) -> (r: u128)
        ensures
            r == self.0,
    {
        self.0
    }
}

/// Where the output spent by an input was created.
#[derive(Debug, Clone, Copy, PartialEq, Eq, PartialOrd, Ord, Structural)]
pub enum OutPointSourceId {
    Transaction(TxId),
    BlockReward(BlockId),
}

/// A reference to an unspent transaction output.
#[derive(Debug, Clone, Copy, PartialEq, Eq, PartialOrd, Ord, Structural)]
pub struct UtxoOutPoint {
    pub source_id: OutPointSourceId,
    pub output_index: u32,
}

impl UtxoOutPoint {
    pub fn new(outpoint_source_id: OutPointSourceId, output_index: u32) -> (r: Self)
        ensures
            r.source_id == outpoint_source_id,
            r.output_index == output_index,
    {
        UtxoOutPoint { source_id: outpoint_source_id, output_index }
    }
}

/// The kind of account an input can withdraw from.
#[derive(Debug, Clone, Copy, PartialEq, Eq, PartialOrd, Ord, Structural)]
pub struct AccountType(pub u64);

/// A reference to an account withdrawal point.
#[derive(Debug, Clone, Copy, PartialEq, Eq, PartialOrd, Ord, Structural)]
pub struct AccountOutPoint {
    pub nonce: u128,
    pub account: AccountType,
}

impl AccountOutPoint {
    pub fn new(nonce: u128, account: AccountType) -> (r: Self)
        ensures
            r.nonce == nonce,
            r.account == account,
    {
        AccountOutPoint { nonce, account }
    }
}

/// A transaction input: either a reference to an unspent output, or an
/// account withdrawal carrying the amount to withdraw.
#[derive(Debug, Clone, Copy, PartialEq, Eq, PartialOrd, Ord, Structural)]
pub enum TxInput {
    Utxo(UtxoOutPoint),
    /// The amount to withdraw from the account; carrying it here lets fees
    /// be calculated and the balance be signed with the witness.
    Account(AccountOutPoint, Amount),
}

impl TxInput {
    pub fn from_utxo(outpoint_source_id: OutPointSourceId, output_index: u32) -> (r: Self)
        ensures
            r == TxInput::Utxo(UtxoOutPoint { source_id: outpoint_source_id, output_index }),
    {
        TxInput::Utxo(UtxoOutPoint::new(outpoint_source_id, output_index))
    }

    pub fn from_account(nonce: u128, account: AccountType, withdraw_amount: Amount) -> (r: Self)
        ensures
            r == TxInput::Account(AccountOutPoint { nonce, account }, withdraw_amount),
    {
        TxInput::Account(AccountOutPoint::new(nonce, account), withdraw_amount)
    }

    pub fn utxo_outpoint(&self) -> (r: Option<&UtxoOutPoint>)
        ensures
            self matches TxInput::Utxo(outpoint) ==> (r matches Some(o) && *o == outpoint),
            self matches TxInput::Account(_, _) ==> r is None,
    {
        match self {
            TxInput::Utxo(outpoint) => Some(outpoint),
            TxInput::Account(_, _) => None,
        }
    }
}

impl From<UtxoOutPoint> for TxInput {
    fn from(outpoint: UtxoOutPoint) -> (r: TxInput) {
        TxInput::Utxo(outpoint)
    }
}

impl vstd::std_specs::convert::FromSpecImpl<UtxoOutPoint> for TxInput {
    open spec fn obeys_from_spec() -> bool {
        true
    }

    open spec fn from_spec(outpoint: UtxoOutPoint) -> TxInput {
        TxInput::Utxo(outpoint)
    }
}

/// A standard input signature: the sighash type and the raw signature
/// bytes.
#[derive(Debug, Clone, PartialEq, Eq, PartialOrd, Ord)]
pub struct StandardInputSignature {
    pub sighash_type: u8,
    pub raw_signature: Vec<u8>,
}

/// The witness authorizing an input.
#[derive(Debug, Clone, PartialEq, Eq, PartialOrd, Ord)]
pub enum InputWitness {
    NoSignature(Option<Vec<u8>>),
    Standard(StandardInputSignature),
}

} // verus!
