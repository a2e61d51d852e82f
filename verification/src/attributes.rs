//! Payload attributes: the instruction to build one block on a given parent.

use vstd::prelude::*;
use crate::primitives::{BlockInfo, Hash256, L2BlockInfo};

verus! {

/// The first byte of an encoded deposit transaction.
pub const DEPOSIT_TX_TYPE: u8 = 0x7E;

/// A 20-byte account address.
#[derive(Clone, Copy, Debug, PartialEq, Eq)]
pub struct Address(pub [u8; 20]);

/// A withdrawal that a block carries out.
#[derive(Clone, Copy, Debug, PartialEq, Eq)]
pub struct Withdrawal {
    pub index: u64,
    pub validator_index: u64,
    pub address: Address,
    pub amount: u64,
}

/// The attributes that every execution engine takes.
#[derive(Clone, Debug, PartialEq, Eq)]
pub struct PayloadAttributes {
    /// The timestamp of the block to build.
    pub timestamp: u64,
    pub prev_randao: Hash256,
    pub suggested_fee_recipient: Address,
    pub withdrawals: Option<Vec<Withdrawal>>,
    pub parent_beacon_block_root: Option<Hash256>,
}

/// The attributes of a rollup block: those of every engine, and the
/// transactions that the block must begin with.
#[derive(Clone, Debug, PartialEq, Eq)]
pub struct OpPayloadAttributes {
    pub payload_attributes: PayloadAttributes,
    /// The encoded transactions that the block is forced to include, in order.
    pub transactions: Option<Vec<Vec<u8>>>,
    pub no_tx_pool: Option<bool>,
    pub gas_limit: Option<u64>,
    pub eip_1559_params: Option<[u8; 8]>,
}

/// Payload attributes with the L2 block they build on.
#[derive(Clone, Debug, PartialEq, Eq)]
pub struct OpAttributesWithParent {
    /// The payload attributes.
    pub inner: OpPayloadAttributes,
    /// The block to build on.
    pub parent: L2BlockInfo,
    /// The L1 block that the attributes were derived from.
    pub derived_from: Option<BlockInfo>,
    /// Whether the attributes close their span of batches.
    pub is_last_in_span: bool,
}

/// The mathematical value of an [`OpAttributesWithParent`].
pub struct AttributesModel {
    pub timestamp: u64,
    pub prev_randao: Hash256,
    pub suggested_fee_recipient: Address,
    pub withdrawals: Option<Seq<Withdrawal>>,
    pub parent_beacon_block_root: Option<Hash256>,
    pub transactions: Option<Seq<Seq<u8>>>,
    pub no_tx_pool: Option<bool>,
    pub gas_limit: Option<u64>,
    pub eip_1559_params: Option<[u8; 8]>,
    pub parent: L2BlockInfo,
    pub derived_from: Option<BlockInfo>,
    pub is_last_in_span: bool,
}

/// An encoded transaction is a deposit when it begins with the deposit type.
pub open spec fn is_deposit(tx: Seq<u8>) -> bool {
    tx.len() > 0 && tx[0] == DEPOSIT_TX_TYPE
}

/// The deposits among `transactions`, in their order.
pub open spec fn deposits_of(transactions: Seq<Seq<u8>>) -> Seq<Seq<u8>> {
    transactions.filter(|tx: Seq<u8>| is_deposit(tx))
}

/// Every one of `transactions` is a deposit.
pub open spec fn all_deposits(transactions: Seq<Seq<u8>>) -> bool {
    forall|i: int| 0 <= i < transactions.len() ==> is_deposit(#[trigger] transactions[i])
}

impl AttributesModel {
    /// The attributes force no transaction but deposits.
    pub open spec fn is_deposits_only(self) -> bool {
        match self.transactions {
            Some(transactions) => all_deposits(transactions),
            None => true,
        }
    }

    /// The same attributes, with the deposits alone among their transactions.
    pub open spec fn as_deposits_only(self) -> AttributesModel {
        AttributesModel {
            transactions: match self.transactions {
                Some(transactions) => Some(deposits_of(transactions)),
                None => None,
            },
            ..self
        }
    }
}

impl View for OpAttributesWithParent {
    type V = AttributesModel;

    open spec fn view(&self) -> AttributesModel {
        AttributesModel {
            timestamp: self.inner.payload_attributes.timestamp,
            prev_randao: self.inner.payload_attributes.prev_randao,
            suggested_fee_recipient: self.inner.payload_attributes.suggested_fee_recipient,
            withdrawals: match self.inner.payload_attributes.withdrawals {
                Some(withdrawals) => Some(withdrawals@),
                None => None,
            },
            parent_beacon_block_root: self.inner.payload_attributes.parent_beacon_block_root,
            transactions: match self.inner.transactions {
                Some(transactions) => Some(transactions.deep_view()),
                None => None,
            },
            no_tx_pool: self.inner.no_tx_pool,
            gas_limit: self.inner.gas_limit,
            eip_1559_params: self.inner.eip_1559_params,
            parent: self.parent,
            derived_from: self.derived_from,
            is_last_in_span: self.is_last_in_span,
        }
    }
}

/// The deposits among a sequence are all deposits.
pub proof fn lemma_deposits_are_deposits(transactions: Seq<Seq<u8>>)
    ensures
        all_deposits(deposits_of(transactions)),
{
    let pred = |tx: Seq<u8>| is_deposit(tx);
    let kept = transactions.filter(pred);
    assert forall|i: int| 0 <= i < kept.len() implies is_deposit(#[trigger] kept[i]) by {
        transactions.lemma_filter_pred(pred, i);
    }
}

/// A sequence of deposits is its own deposits.
pub proof fn lemma_deposits_of_deposits(transactions: Seq<Seq<u8>>)
    requires
        all_deposits(transactions),
    ensures
        deposits_of(transactions) == transactions,
    decreases transactions.len(),
{
    let pred = |tx: Seq<u8>| is_deposit(tx);
    reveal(Seq::filter);
    if transactions.len() > 0 {
        lemma_deposits_of_deposits(transactions.drop_last());
        assert(is_deposit(transactions[transactions.len() - 1]));
        assert(transactions.drop_last().push(transactions.last()) =~= transactions);
    }
}

/// Reducing attributes to their deposits gives deposits-only attributes, and
/// reducing those again changes nothing.
pub proof fn lemma_as_deposits_only_is_idempotent(attributes: AttributesModel)
    ensures
        attributes.as_deposits_only().is_deposits_only(),
        attributes.as_deposits_only().as_deposits_only() == attributes.as_deposits_only(),
        attributes.is_deposits_only() ==> attributes.as_deposits_only() == attributes,
{
    match attributes.transactions {
        Some(transactions) => {
            lemma_deposits_are_deposits(transactions);
            lemma_deposits_of_deposits(deposits_of(transactions));
            if all_deposits(transactions) {
                lemma_deposits_of_deposits(transactions);
            }
        },
        None => {},
    }
}

/// Tells whether an encoded transaction is a deposit.
pub fn is_deposit_transaction(tx: &Vec<u8>) -> (deposit: bool)
    ensures
        deposit == is_deposit(tx@),
{
    tx.len() > 0 && tx[0] == DEPOSIT_TX_TYPE
}

fn copy_bytes(bytes: &Vec<u8>) -> (copy: Vec<u8>)
    ensures
        copy@ == bytes@,
{
    let mut copy: Vec<u8> = Vec::new();
    let mut i: usize = 0;
    while i < bytes.len()
        invariant
            i <= bytes.len(),
            copy@ == bytes@.subrange(0, i as int),
        decreases bytes.len() - i,
    {
        copy.push(bytes[i]);
        assert(copy@ == bytes@.subrange(0, i + 1));
        i += 1;
    }
    assert(bytes@.subrange(0, bytes.len() as int) == bytes@);
    copy
}

fn copy_withdrawals(withdrawals: &Vec<Withdrawal>) -> (copy: Vec<Withdrawal>)
    ensures
        copy@ == withdrawals@,
{
    let mut copy: Vec<Withdrawal> = Vec::new();
    let mut i: usize = 0;
    while i < withdrawals.len()
        invariant
            i <= withdrawals.len(),
            copy@ == withdrawals@.subrange(0, i as int),
        decreases withdrawals.len() - i,
    {
        copy.push(withdrawals[i]);
        assert(copy@ == withdrawals@.subrange(0, i + 1));
        i += 1;
    }
    assert(withdrawals@.subrange(0, withdrawals.len() as int) == withdrawals@);
    copy
}

/// Copies the deposits among `transactions`, in their order.
pub fn retain_deposits(transactions: &Vec<Vec<u8>>) -> (kept: Vec<Vec<u8>>)
    ensures
        kept.deep_view() == deposits_of(transactions.deep_view()),
{
    let ghost pred = |tx: Seq<u8>| is_deposit(tx);
    let ghost all = transactions.deep_view();
    let mut kept: Vec<Vec<u8>> = Vec::new();
    let mut i: usize = 0;
    proof {
        reveal(Seq::filter);
        assert(all.subrange(0, 0) =~= Seq::<Seq<u8>>::empty());
        assert(kept.deep_view() =~= Seq::<Seq<u8>>::empty());
    }
    while i < transactions.len()
        invariant
            i <= transactions.len(),
            all == transactions.deep_view(),
            all.len() == transactions.len(),
            pred == |tx: Seq<u8>| is_deposit(tx),
            kept.deep_view() == all.subrange(0, i as int).filter(pred),
        decreases transactions.len() - i,
    {
        let ghost before = kept.deep_view();
        let tx = &transactions[i];
        assert(tx@ == all[i as int]);
        proof {
            all.subrange(0, i as int).lemma_filter_push(all[i as int], pred);
            assert(all.subrange(0, i as int).push(all[i as int]) =~= all.subrange(0, i + 1));
        }
        if is_deposit_transaction(tx) {
            let copy = copy_bytes(tx);
            kept.push(copy);
            assert(kept.deep_view() =~= before.push(all[i as int]));
        }
        i += 1;
    }
    assert(all.subrange(0, all.len() as int) =~= all);
    kept
}

impl OpAttributesWithParent {
    /// Attributes from their parts.
    pub fn new(
        inner: OpPayloadAttributes,
        parent: L2BlockInfo,
        derived_from: Option<BlockInfo>,
        is_last_in_span: bool,
    ) -> (attributes: OpAttributesWithParent)
        ensures
            attributes == (OpAttributesWithParent { inner, parent, derived_from, is_last_in_span }),
    {
        OpAttributesWithParent { inner, parent, derived_from, is_last_in_span }
    }

    /// The timestamp of the block to build.
    pub fn timestamp(&self) -> (timestamp: u64)
        ensures
            timestamp == self@.timestamp,
    {
        self.inner.payload_attributes.timestamp
    }

    /// Tells whether the attributes force no transaction but deposits.
    pub fn is_deposits_only(&self) -> (only: bool)
        ensures
            only == self@.is_deposits_only(),
    {
        match &self.inner.transactions {
            None => true,
            Some(transactions) => {
                let ghost all = transactions.deep_view();
                let mut i: usize = 0;
                while i < transactions.len()
                    invariant
                        i <= transactions.len(),
                        all == transactions.deep_view(),
                        all.len() == transactions.len(),
                        self@.transactions == Some(all),
                        forall|j: int| 0 <= j < i ==> is_deposit(#[trigger] all[j]),
                    decreases transactions.len() - i,
                {
                    assert(transactions[i as int]@ == all[i as int]);
                    if !is_deposit_transaction(&transactions[i]) {
                        assert(!is_deposit(all[i as int]));
                        return false;
                    }
                    i += 1;
                }
                true
            },
        }
    }

    /// The same attributes, with the deposits alone among their transactions.
    pub fn as_deposits_only(&self) -> (reduced: OpAttributesWithParent)
        ensures
            reduced@ == self@.as_deposits_only(),
            reduced@.is_deposits_only(),
    {
        proof {
            lemma_as_deposits_only_is_idempotent(self@);
        }
        let withdrawals = match &self.inner.payload_attributes.withdrawals {
            Some(withdrawals) => Some(copy_withdrawals(withdrawals)),
            None => None,
        };
        let transactions = match &self.inner.transactions {
            Some(transactions) => Some(retain_deposits(transactions)),
            None => None,
        };
        OpAttributesWithParent {
            inner: OpPayloadAttributes {
                payload_attributes: PayloadAttributes {
                    timestamp: self.inner.payload_attributes.timestamp,
                    prev_randao: self.inner.payload_attributes.prev_randao,
                    suggested_fee_recipient: self.inner.payload_attributes.suggested_fee_recipient,
                    withdrawals,
                    parent_beacon_block_root: self.inner.payload_attributes.parent_beacon_block_root,
                },
                transactions,
                no_tx_pool: self.inner.no_tx_pool,
                gas_limit: self.inner.gas_limit,
                eip_1559_params: self.inner.eip_1559_params,
            },
            parent: self.parent,
            derived_from: self.derived_from,
            is_last_in_span: self.is_last_in_span,
        }
    }
}

} // verus!
