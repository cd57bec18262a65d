//! The factory: store registry, escrow ledger, and the decision half of
//! every entry point.
//!
//! Entry points that need a remote call return an intent value describing
//! it; the host performs the call and later feeds the outcome to the
//! matching callback handler, which commits the pending change or rolls it
//! back. Entry points that reject do so before any state change.

use vstd::prelude::*;
use crate::account::{is_valid_subaccount, spec_subaccount_bytes, spec_valid_account_id, string_bytes};
use crate::payout::{
    compute_payout, lemma_funds_conserved, spec_affiliate_amount, spec_platform_fee,
    spec_seller_amount,
};
use crate::types::{
    clone_opt_string, spec_is_open, spec_step_allowed, spec_terms_valid, status_is_open, Buy,
    BuyAction, BuyCallbackResult, BuyIntent, BuyOutcome, CompletePurchaseAction,
    CompletePurchaseResult, DeployIntent, FactoryError, FtData, KeypomArgs, MarketplaceData,
    MarkShippedAction, PayoutActions, ProvisionAction, RewardCall, ShipmentOutcome, Token,
    TokenData, Transaction, TransactionStatus, TransferAction, UnlockCall,
};
use crate::{ONE_YOCTO, STORE_BALANCE};

verus! {

/// Nanoseconds in one day: the unit in which timeouts are granted times
/// the platform's time resolution.
pub const NANOS_PER_DAY: u128 = 86_400_000_000_000;

/// Bounds that every ledger record satisfies, so that settlement and
/// deadline arithmetic cannot overflow.
pub open spec fn spec_tx_wf(t: Transaction) -> bool {
    &&& t.buyer_value_locked <= u128::MAX / 100
    &&& t.time_created + t.timeout * 86_400_000_000_000 <= u128::MAX
    &&& (t.affiliate_percentage matches Some(p) ==> p <= 100)
}

/// The moment an unshipped purchase becomes refundable.
pub open spec fn spec_deadline(timeout: u128, created: u128) -> int {
    created + timeout * 86_400_000_000_000
}

/// Membership of a prefix in the store registry.
pub open spec fn spec_contains_store(stores: Seq<String>, id: Seq<char>) -> bool {
    exists|i: int| 0 <= i < stores.len() && #[trigger] stores[i]@ == id
}

/// Whether a record is for the given product, store, and buyer.
pub open spec fn spec_matches_triple(
    t: Transaction,
    product_id: u64,
    store: Seq<char>,
    buyer: Seq<char>,
) -> bool {
    t.product_id == product_id && t.store_contract_id@ == store && t.buyer_id@ == buyer
}

/// Whether some record still blocks a new escrow purchase of the triple.
pub open spec fn spec_open_exists(
    txs: Seq<Transaction>,
    product_id: u64,
    store: Seq<char>,
    buyer: Seq<char>,
) -> bool {
    exists|i: int|
        0 <= i < txs.len() && spec_matches_triple(#[trigger] txs[i], product_id, store, buyer)
            && spec_is_open(txs[i].status)
}

/// Whether a record is the one addressed by a lifecycle call: same
/// identifier, store, buyer, and currently in the required status.
pub open spec fn spec_matches_key(
    t: Transaction,
    transaction_id: u128,
    store: Seq<char>,
    buyer: Seq<char>,
    status: TransactionStatus,
) -> bool {
    &&& t.transaction_id == transaction_id
    &&& t.store_contract_id@ == store
    &&& t.buyer_id@ == buyer
    &&& t.status == status
}

/// No record of the ledger is addressed by this key and status.
pub open spec fn spec_no_key_match(
    txs: Seq<Transaction>,
    transaction_id: u128,
    store: Seq<char>,
    buyer: Seq<char>,
    status: TransactionStatus,
) -> bool {
    forall|j: int|
        0 <= j < txs.len() ==> !spec_matches_key(
            #[trigger] txs[j],
            transaction_id,
            store,
            buyer,
            status,
        )
}

/// Position `i` holds the first record addressed by this key and status.
pub open spec fn spec_first_key_match(
    txs: Seq<Transaction>,
    i: int,
    transaction_id: u128,
    store: Seq<char>,
    buyer: Seq<char>,
    status: TransactionStatus,
) -> bool {
    &&& 0 <= i < txs.len()
    &&& spec_matches_key(txs[i], transaction_id, store, buyer, status)
    &&& forall|j: int|
        0 <= j < i ==> !spec_matches_key(#[trigger] txs[j], transaction_id, store, buyer, status)
}

/// The record `t` with its status replaced; every other field kept.
pub open spec fn spec_with_status(t: Transaction, status: TransactionStatus) -> Transaction {
    Transaction { status, ..t }
}

/// The record `t` with its status replaced and the shipment proof set;
/// every other field kept.
pub open spec fn spec_with_status_ipfs(
    t: Transaction,
    status: TransactionStatus,
    ipfs: String,
) -> Transaction {
    Transaction { status, ipfs, ..t }
}

/// Whether an affiliate takes a cut when this record settles: the
/// affiliate terms are enabled and an affiliate identity is attached.
pub open spec fn spec_affiliate_enabled(t: Transaction) -> bool {
    t.affiliate && t.affiliate_id is Some
}

/// The affiliate percentage of a record, zero when none was reported.
pub open spec fn spec_tx_pct(t: Transaction) -> u32 {
    match t.affiliate_percentage {
        Some(p) => p,
        None => 0,
    }
}

/// Every status change between two ledger snapshots of equal length
/// follows the transition graph.
pub open spec fn spec_statuses_evolve(pre: Seq<Transaction>, post: Seq<Transaction>) -> bool {
    &&& post.len() == pre.len()
    &&& forall|i: int|
        0 <= i < pre.len() ==> (post[i].status == pre[i].status || spec_step_allowed(
            #[trigger] pre[i].status,
            post[i].status,
        ))
}

/// Status monotonicity at the end of a record's life: the transition
/// graph has no edge out of a resolved status, so once a record is
/// Delivered, Disputed, or Canceled, no evolution of the ledger that
/// follows the graph ever changes its status again.
pub proof fn lemma_terminal_status(pre: Seq<Transaction>, post: Seq<Transaction>, i: int)
    requires
        spec_statuses_evolve(pre, post),
        0 <= i < pre.len(),
        !spec_is_open(pre[i].status),
    ensures
        post[i].status == pre[i].status,
{
}

/// The fields of a ledger record created by the purchase callback from
/// the intent of a `buy` call, the sale terms the store reported, and the
/// commit timestamp.
pub open spec fn spec_committed_tx(
    t: Transaction,
    buyer_account_id: String,
    attached_deposit: u128,
    product_id: u64,
    store_contract_id: String,
    timeout: u128,
    is_discount: bool,
    is_reward: bool,
    is_keypom: bool,
    hashed_billing_address: String,
    nonce: String,
    now: u64,
    d: MarketplaceData,
) -> bool {
    &&& t.transaction_id == now as u128
    &&& t.product_id == product_id
    &&& t.store_contract_id == store_contract_id
    &&& t.buyer_id == buyer_account_id
    &&& t.buyer_value_locked == attached_deposit
    &&& t.price == d.price
    &&& t.token_id == d.token_id
    &&& t.timeout == timeout
    &&& t.affiliate == d.affiliate
    &&& t.affiliate_id == d.affiliate_id
    &&& t.affiliate_percentage == d.affiliate_percentage
    &&& t.is_discount == is_discount
    &&& t.is_reward == is_reward
    &&& t.is_keypom == is_keypom
    &&& t.status is Approved
    &&& t.hashed_billing_address == hashed_billing_address
    &&& t.nonce == nonce
    &&& t.ipfs@ == Seq::<char>::empty()
    &&& t.time_created == now
}

/// A platform-level namespace that no store may take.
pub open spec fn spec_reserved_prefix(p: Seq<char>) -> bool {
    p == "market"@ || p == "pipar"@ || p == "dao"@ || p == "auction"@
}

/// The store registry after a deploy callback: on success the prefix is
/// registered (once), on failure the registry is untouched.
pub open spec fn spec_registry_after_deploy(
    stores: Seq<String>,
    prefix: String,
    success: bool,
) -> Seq<String> {
    if success && !spec_contains_store(stores, prefix@) {
        stores.push(prefix)
    } else {
        stores
    }
}

/// The refund a standard deploy callback owes: nothing on success, the
/// creator's whole deposit on failure.
pub open spec fn spec_deploy_refund(
    store_creator_id: String,
    attached_deposit: u128,
    success: bool,
) -> Option<TransferAction> {
    if success {
        None
    } else {
        Some(TransferAction { receiver_id: store_creator_id, amount: attached_deposit })
    }
}

/// Atomic provisioning: once a deploy callback has reconciled the chain's
/// outcome, either the store is fully registered (remote success) or the
/// registry is exactly as before and the creator's whole deposit is
/// returned (remote failure); no partial state is observable.
pub proof fn lemma_atomic_provisioning(
    stores: Seq<String>,
    store_creator_id: String,
    prefix: String,
    attached_deposit: u128,
    success: bool,
)
    ensures
        success ==> spec_contains_store(
            spec_registry_after_deploy(stores, prefix, success),
            prefix@,
        ) && spec_deploy_refund(store_creator_id, attached_deposit, success) is None,
        !success ==> spec_registry_after_deploy(stores, prefix, success) == stores
            && spec_deploy_refund(store_creator_id, attached_deposit, success) == Some(
            TransferAction { receiver_id: store_creator_id, amount: attached_deposit },
        ),
{
    if success && !spec_contains_store(stores, prefix@) {
        let after = spec_registry_after_deploy(stores, prefix, success);
        assert(after[stores.len() as int]@ == prefix@);
    }
}

/// The ledger records whose buyer is `buyer`, in ledger order.
pub open spec fn spec_buyer_txs(txs: Seq<Transaction>, buyer: Seq<char>) -> Seq<Transaction> {
    txs.filter(|t: Transaction| t.buyer_id@ == buyer)
}

/// The ledger records whose selling store is `store`, in ledger order.
pub open spec fn spec_seller_txs(txs: Seq<Transaction>, store: Seq<char>) -> Seq<Transaction> {
    txs.filter(|t: Transaction| t.store_contract_id@ == store)
}

/// One step of a prefix filter: extending the prefix by one record
/// extends the filtered sequence by that record exactly when it passes.
proof fn lemma_filter_step(s: Seq<Transaction>, i: int, pred: spec_fn(Transaction) -> bool)
    requires
        0 <= i < s.len(),
    ensures
        s.subrange(0, i + 1).filter(pred) == if pred(s[i]) {
            s.subrange(0, i).filter(pred).push(s[i])
        } else {
            s.subrange(0, i).filter(pred)
        },
{
    let cur = s.subrange(0, i + 1);
    assert(cur.drop_last() =~= s.subrange(0, i));
    assert(cur.last() == s[i]);
    reveal_with_fuel(Seq::filter, 2);
}

/// The marketplace escrow factory: the store registry, the escrow ledger,
/// and the provisioning stake requirement.
pub struct PiparContractFactory {
    /// Prefixes of successfully provisioned stores. A prefix is a member
    /// exactly when its sub-account was created and confirmed by callback.
    pub stores: Vec<String>,
    /// The escrow ledger: one record per escrowed purchase, appended by
    /// the purchase callback and mutated in place, never deleted.
    pub transactions: Vec<Transaction>,
    /// Native-currency stake required to provision a store.
    pub store_cost: u128,
    /// Per-store aggregate statistics; reserved, not maintained by any
    /// entry point.
    pub stores_stats: Vec<(String, u128)>,
}

impl PiparContractFactory {
    /// All ledger records satisfy the arithmetic bounds.
    pub open spec fn wf(&self) -> bool {
        forall|i: int| 0 <= i < self.transactions@.len() ==> spec_tx_wf(#[trigger] self.transactions@[i])
    }

    /// Creates an empty factory with the fixed provisioning stake.
    pub fn new() -> (factory: Self)
        ensures
            factory.stores@.len() == 0,
            factory.transactions@.len() == 0,
            factory.store_cost == STORE_BALANCE,
            factory.stores_stats@.len() == 0,
            factory.wf(),
    {
        PiparContractFactory {
            stores: Vec::new(),
            transactions: Vec::new(),
            store_cost: STORE_BALANCE,
            stores_stats: Vec::new(),
        }
    }

    /// Decides whether every ledger record satisfies the arithmetic
    /// bounds, so that an unverified caller can test the precondition of
    /// the lifecycle calls at run time.
    pub fn check_wf(&self) -> (b: bool)
        ensures
            b == self.wf(),
    {
        let mut i: usize = 0;
        while i < self.transactions.len()
            invariant
                0 <= i <= self.transactions@.len(),
                forall|j: int| 0 <= j < i ==> spec_tx_wf(#[trigger] self.transactions@[j]),
            decreases self.transactions@.len() - i,
        {
            let t = &self.transactions[i];
            let value_ok = t.buyer_value_locked <= u128::MAX / 100;
            let deadline_ok = match t.timeout.checked_mul(86_400_000_000_000) {
                Some(nanos) => nanos <= u128::MAX - (t.time_created as u128),
                None => false,
            };
            let pct_ok = match t.affiliate_percentage {
                Some(p) => p <= 100,
                None => true,
            };
            if !(value_ok && deadline_ok && pct_ok) {
                return false;
            }
            i = i + 1;
        }
        true
    }

    /// Whether a store with this prefix has been provisioned and confirmed.
    pub fn check_contains_store(&self, store_id: String) -> (b: bool)
        ensures
            b == spec_contains_store(self.stores@, store_id@),
    {
        let mut i: usize = 0;
        while i < self.stores.len()
            invariant
                0 <= i <= self.stores@.len(),
                forall|j: int| 0 <= j < i ==> #[trigger] self.stores@[j]@ != store_id@,
            decreases self.stores@.len() - i,
        {
            if self.stores[i] == store_id {
                return true;
            }
            i = i + 1;
        }
        false
    }

    /// The stake a caller must attach to provision a store.
    pub fn get_store_cost(&self) -> (cost: u128)
        ensures
            cost == self.store_cost,
    {
        self.store_cost
    }

    /// How many escrow records the ledger holds.
    pub fn get_transaction_count(&self) -> (count: usize)
        ensures
            count == self.transactions@.len(),
    {
        self.transactions.len()
    }

    /// Every ledger record, in ledger order.
    pub fn get_all_transactions(&self) -> (r: Vec<Transaction>)
        ensures
            r@ == self.transactions@,
    {
        let mut result: Vec<Transaction> = Vec::new();
        let mut i: usize = 0;
        while i < self.transactions.len()
            invariant
                0 <= i <= self.transactions@.len(),
                result@ == self.transactions@.subrange(0, i as int),
            decreases self.transactions@.len() - i,
        {
            result.push(self.transactions[i].clone());
            assert(result@ =~= self.transactions@.subrange(0, i + 1));
            i = i + 1;
        }
        assert(result@ =~= self.transactions@);
        result
    }

    /// The ledger records bought by `account_id`, in ledger order.
    pub fn get_buyer_transactions(&self, account_id: String) -> (r: Vec<Transaction>)
        ensures
            r@ == spec_buyer_txs(self.transactions@, account_id@),
    {
        let ghost pred = |t: Transaction| t.buyer_id@ == account_id@;
        let mut result: Vec<Transaction> = Vec::new();
        let mut i: usize = 0;
        assert(self.transactions@.subrange(0, 0).filter(pred) =~= Seq::<Transaction>::empty());
        while i < self.transactions.len()
            invariant
                0 <= i <= self.transactions@.len(),
                result@ == self.transactions@.subrange(0, i as int).filter(pred),
                pred == (|t: Transaction| t.buyer_id@ == account_id@),
            decreases self.transactions@.len() - i,
        {
            proof {
                lemma_filter_step(self.transactions@, i as int, pred);
            }
            let t = &self.transactions[i];
            if t.buyer_id == account_id {
                result.push(t.clone());
            }
            i = i + 1;
        }
        assert(self.transactions@.subrange(0, self.transactions@.len() as int)
            =~= self.transactions@);
        result
    }

    /// The ledger records sold at `account_id`, in ledger order.
    pub fn get_seller_transactions(&self, account_id: String) -> (r: Vec<Transaction>)
        ensures
            r@ == spec_seller_txs(self.transactions@, account_id@),
    {
        let ghost pred = |t: Transaction| t.store_contract_id@ == account_id@;
        let mut result: Vec<Transaction> = Vec::new();
        let mut i: usize = 0;
        assert(self.transactions@.subrange(0, 0).filter(pred) =~= Seq::<Transaction>::empty());
        while i < self.transactions.len()
            invariant
                0 <= i <= self.transactions@.len(),
                result@ == self.transactions@.subrange(0, i as int).filter(pred),
                pred == (|t: Transaction| t.store_contract_id@ == account_id@),
            decreases self.transactions@.len() - i,
        {
            proof {
                lemma_filter_step(self.transactions@, i as int, pred);
            }
            let t = &self.transactions[i];
            if t.store_contract_id == account_id {
                result.push(t.clone());
            }
            i = i + 1;
        }
        assert(self.transactions@.subrange(0, self.transactions@.len() as int)
            =~= self.transactions@);
        result
    }

    /// Whether `prefix` can name a new store: it is not yet registered and
    /// `<prefix>.<factory>` is a valid account identifier.
    pub fn assert_no_store_with_id(&self, prefix: String, factory_account_id: String) -> (b: bool)
        ensures
            b == (!spec_contains_store(self.stores@, prefix@) && spec_valid_account_id(
                spec_subaccount_bytes(string_bytes(&prefix), string_bytes(&factory_account_id)),
            )),
    {
        let valid = is_valid_subaccount(&prefix, &factory_account_id);
        let taken = self.check_contains_store(prefix);
        !taken && valid
    }

    /// Whether the signing account is the transaction's buyer.
    pub fn assert_only_buyer(&self, signer_account_id: String, buyer_account_id: String) -> (b:
        bool)
        ensures
            b == (signer_account_id@ == buyer_account_id@),
    {
        signer_account_id == buyer_account_id
    }

    /// Whether the signing account is the transaction's selling store.
    pub fn assert_only_seller(&self, signer_account_id: String, store_account_id: String) -> (b:
        bool)
        ensures
            b == (signer_account_id@ == store_account_id@),
    {
        signer_account_id == store_account_id
    }

    /// The registry, the stake requirement, and the statistics are those
    /// of `pre`; only the ledger may differ.
    pub open spec fn spec_same_except_ledger(self, pre: Self) -> bool {
        &&& self.stores == pre.stores
        &&& self.store_cost == pre.store_cost
        &&& self.stores_stats == pre.stores_stats
    }

    /// Whether some ledger record still blocks a new escrow purchase of
    /// this product by this buyer at this store.
    fn exists_open_transaction(
        &self,
        product_id: u64,
        store_contract_id: &String,
        buyer_id: &String,
    ) -> (b: bool)
        ensures
            b == spec_open_exists(
                self.transactions@,
                product_id,
                store_contract_id@,
                buyer_id@,
            ),
    {
        let mut i: usize = 0;
        while i < self.transactions.len()
            invariant
                0 <= i <= self.transactions@.len(),
                forall|j: int|
                    0 <= j < i ==> !(spec_matches_triple(
                        #[trigger] self.transactions@[j],
                        product_id,
                        store_contract_id@,
                        buyer_id@,
                    ) && spec_is_open(self.transactions@[j].status)),
            decreases self.transactions@.len() - i,
        {
            let t = &self.transactions[i];
            if t.product_id == product_id && t.store_contract_id == *store_contract_id
                && t.buyer_id == *buyer_id && status_is_open(t.status) {
                return true;
            }
            i = i + 1;
        }
        false
    }

    /// Buyer entry point: escrow a purchase of `product_id` at the given
    /// store. Rejected, before any fund movement, exactly when an open
    /// transaction for the same product, store, and buyer already exists;
    /// otherwise the factory keeps the attached deposit in escrow and asks
    /// the host to issue the purchase-intake call whose callback will
    /// commit or refund it. The factory state does not change here.
    pub fn buy(
        &mut self,
        product_id: u64,
        store_contract_id: String,
        color: String,
        timeout: u128,
        is_discount: bool,
        is_reward: bool,
        hashed_billing_address: String,
        nonce: String,
        affiliate: Option<String>,
        buyer_account_id: String,
        attached_deposit: u128,
    ) -> (r: Result<BuyAction, FactoryError>)
        requires
            attached_deposit <= u128::MAX / 100,
            timeout * 86_400_000_000_000 + u64::MAX <= u128::MAX,
        ensures
            *final(self) == *old(self),
            r is Err <==> spec_open_exists(
                old(self).transactions@,
                product_id,
                store_contract_id@,
                buyer_account_id@,
            ),
            r matches Err(e) ==> e == FactoryError::DoubleEscrow,
            r matches Ok(a) ==> (a == (BuyAction {
                store_contract_id: store_contract_id,
                args: (Buy {
                    id: product_id,
                    receiver_id: buyer_account_id,
                    attached_deposit: attached_deposit,
                    color: color,
                    affiliate: affiliate,
                }),
                deposit: ONE_YOCTO,
                intent: (BuyIntent {
                    buyer_account_id: buyer_account_id,
                    attached_deposit: attached_deposit,
                    product_id: product_id,
                    store_contract_id: store_contract_id,
                    timeout: timeout,
                    is_discount: is_discount,
                    is_reward: is_reward,
                    is_keypom: false,
                    hashed_billing_address: hashed_billing_address,
                    nonce: nonce,
                }),
            })),
    {
        if self.exists_open_transaction(product_id, &store_contract_id, &buyer_account_id) {
            return Err(FactoryError::DoubleEscrow);
        }
        Ok(BuyAction {
            store_contract_id: store_contract_id.clone(),
            args: Buy {
                id: product_id,
                receiver_id: buyer_account_id.clone(),
                attached_deposit,
                color,
                affiliate,
            },
            deposit: ONE_YOCTO,
            intent: BuyIntent {
                buyer_account_id,
                attached_deposit,
                product_id,
                store_contract_id,
                timeout,
                is_discount,
                is_reward,
                is_keypom: false,
                hashed_billing_address,
                nonce,
            },
        })
    }

    /// Like `buy`, but on behalf of a delegated claim: the buyer identity
    /// is the claiming account rather than the direct caller, and the
    /// resulting record is marked as such.
    pub fn keypom_buy(
        &mut self,
        product_id: u64,
        store_contract_id: String,
        color: String,
        timeout: u128,
        is_discount: bool,
        is_reward: bool,
        hashed_billing_address: String,
        nonce: String,
        affiliate: Option<String>,
        keypom_id: String,
        attached_deposit: u128,
    ) -> (r: Result<BuyAction, FactoryError>)
        requires
            attached_deposit <= u128::MAX / 100,
            timeout * 86_400_000_000_000 + u64::MAX <= u128::MAX,
        ensures
            *final(self) == *old(self),
            r is Err <==> spec_open_exists(
                old(self).transactions@,
                product_id,
                store_contract_id@,
                keypom_id@,
            ),
            r matches Err(e) ==> e == FactoryError::DoubleEscrow,
            r matches Ok(a) ==> (a == (BuyAction {
                store_contract_id: store_contract_id,
                args: (Buy {
                    id: product_id,
                    receiver_id: keypom_id,
                    attached_deposit: attached_deposit,
                    color: color,
                    affiliate: affiliate,
                }),
                deposit: ONE_YOCTO,
                intent: (BuyIntent {
                    buyer_account_id: keypom_id,
                    attached_deposit: attached_deposit,
                    product_id: product_id,
                    store_contract_id: store_contract_id,
                    timeout: timeout,
                    is_discount: is_discount,
                    is_reward: is_reward,
                    is_keypom: true,
                    hashed_billing_address: hashed_billing_address,
                    nonce: nonce,
                }),
            })),
    {
        if self.exists_open_transaction(product_id, &store_contract_id, &keypom_id) {
            return Err(FactoryError::DoubleEscrow);
        }
        Ok(BuyAction {
            store_contract_id: store_contract_id.clone(),
            args: Buy {
                id: product_id,
                receiver_id: keypom_id.clone(),
                attached_deposit,
                color,
                affiliate,
            },
            deposit: ONE_YOCTO,
            intent: BuyIntent {
                buyer_account_id: keypom_id,
                attached_deposit,
                product_id,
                store_contract_id,
                timeout,
                is_discount,
                is_reward,
                is_keypom: true,
                hashed_billing_address,
                nonce,
            },
        })
    }

    /// Whether the prefix is a reserved platform namespace.
    fn is_reserved_prefix(prefix: &String) -> (b: bool)
        ensures
            b == spec_reserved_prefix(prefix@),
    {
        *prefix == String::from_str("market") || *prefix == String::from_str("pipar") || *prefix
            == String::from_str("dao") || *prefix == String::from_str("auction")
    }

    /// Registers a prefix, keeping the registry's set semantics: a prefix
    /// already present is not added again.
    fn insert_store(&mut self, prefix: String)
        ensures
            final(self).stores@ == spec_registry_after_deploy(old(self).stores@, prefix, true),
            final(self).spec_same_except_registry(*old(self)),
    {
        if !self.check_contains_store(prefix.clone()) {
            self.stores.push(prefix);
        }
    }

    /// The ledger, the stake requirement, and the statistics are those of
    /// `pre`; only the store registry may differ.
    pub open spec fn spec_same_except_registry(self, pre: Self) -> bool {
        &&& self.transactions == pre.transactions
        &&& self.store_cost == pre.store_cost
        &&& self.stores_stats == pre.stores_stats
    }

    /// Delegated-claim provisioning entry point: derives the store prefix
    /// by stripping the claim suffix from the new account's name, and asks
    /// the host to issue the provisioning chain. No precondition is
    /// checked here and the factory state does not change; the deploy
    /// callback registers the prefix once the chain's outcome is known.
    pub fn create_account(
        &mut self,
        new_account_id: String,
        new_public_key: String,
        keypom_args: KeypomArgs,
        name: String,
        symbol: String,
        icon: String,
        bg_icon: String,
        category: String,
        description: String,
        facebook: String,
        twitter: String,
        instagram: String,
        tiktok: String,
        youtube: String,
        zip: String,
        city: String,
        state: String,
        country: String,
        factory_account_id: String,
    ) -> (a: ProvisionAction)
        requires
            new_account_id@.len() >= 8,
        ensures
            *final(self) == *old(self),
            a.prefix@ == new_account_id@.take(new_account_id@.len() - 8),
            a.public_key == new_public_key,
            a.stake == old(self).store_cost,
            a.init_args == (FtData {
                owner_id: new_account_id,
                marketplace_contract_id: factory_account_id,
                name: name,
                symbol: symbol,
                icon: icon,
                bg_icon: bg_icon,
                category: category,
                description: description,
                facebook: facebook,
                twitter: twitter,
                instagram: instagram,
                tiktok: tiktok,
                youtube: youtube,
                zip: zip,
                city: city,
                state: state,
                country: country,
            }),
            a.callback matches DeployIntent::Keypom { prefix } && prefix@ == a.prefix@,
    {
        let _keypom = keypom_args;
        let n = new_account_id.as_str().unicode_len();
        let prefix_str = new_account_id.as_str().substring_char(0, n - 8);
        let prefix = prefix_str.to_owned();
        let callback_prefix = prefix.clone();
        ProvisionAction {
            prefix,
            public_key: new_public_key,
            stake: self.store_cost,
            init_args: FtData {
                owner_id: new_account_id,
                marketplace_contract_id: factory_account_id,
                name,
                symbol,
                icon,
                bg_icon,
                category,
                description,
                facebook,
                twitter,
                instagram,
                tiktok,
                youtube,
                zip,
                city,
                state,
                country,
            },
            callback: DeployIntent::Keypom { prefix: callback_prefix },
        }
    }

    /// Deploy callback of the delegated-claim provisioning path: on
    /// success the prefix becomes a registered store; on failure nothing
    /// changes (this path does not track the original payer, so no refund
    /// is owed here).
    pub fn deploy_store_keypom_callback(&mut self, prefix: String, success: bool)
        ensures
            final(self).stores@ == spec_registry_after_deploy(
                old(self).stores@,
                prefix,
                success,
            ),
            final(self).spec_same_except_registry(*old(self)),
    {
        if success {
            self.insert_store(prefix);
        }
    }

    /// Deploy callback of the standard provisioning path: on success the
    /// prefix becomes a registered store and no refund is owed; on
    /// failure the registry stays exactly as it was and the creator's
    /// whole deposit must be returned. Either way no partial state
    /// remains.
    pub fn deploy_store_callback(
        &mut self,
        store_creator_id: String,
        prefix: String,
        attached_deposit: u128,
        success: bool,
    ) -> (refund: Option<TransferAction>)
        ensures
            final(self).stores@ == spec_registry_after_deploy(
                old(self).stores@,
                prefix,
                success,
            ),
            final(self).spec_same_except_registry(*old(self)),
            refund == spec_deploy_refund(store_creator_id, attached_deposit, success),
    {
        if success {
            self.insert_store(prefix);
            None
        } else {
            Some(TransferAction { receiver_id: store_creator_id, amount: attached_deposit })
        }
    }

    /// Store-creation entry point. Rejected, with no side effect, when
    /// the attached deposit does not cover the stake, the prefix is
    /// already registered, the derived sub-account name is invalid, or
    /// the prefix is a reserved namespace; otherwise asks the host to
    /// issue the provisioning chain, whose deploy callback registers the
    /// prefix or refunds the signer. The factory state does not change
    /// here.
    pub fn create_store(
        &mut self,
        prefix: String,
        name: String,
        symbol: String,
        icon: String,
        bg_icon: String,
        category: String,
        description: String,
        facebook: String,
        twitter: String,
        instagram: String,
        tiktok: String,
        youtube: String,
        zip: String,
        city: String,
        state: String,
        country: String,
        signer_account_id: String,
        signer_public_key: String,
        attached_deposit: u128,
        factory_account_id: String,
    ) -> (r: Result<ProvisionAction, FactoryError>)
        ensures
            *final(self) == *old(self),
            r == Result::<ProvisionAction, FactoryError>::Err(FactoryError::DepositTooLow)
                <==> attached_deposit < old(self).store_cost,
            r == Result::<ProvisionAction, FactoryError>::Err(FactoryError::StoreIdTaken) <==> (
            attached_deposit >= old(self).store_cost && spec_contains_store(
                old(self).stores@,
                prefix@,
            )),
            r == Result::<ProvisionAction, FactoryError>::Err(FactoryError::InvalidStoreId) <==> (
            attached_deposit >= old(self).store_cost && !spec_contains_store(
                old(self).stores@,
                prefix@,
            ) && !spec_valid_account_id(
                spec_subaccount_bytes(string_bytes(&prefix), string_bytes(&factory_account_id)),
            )),
            r == Result::<ProvisionAction, FactoryError>::Err(FactoryError::ReservedStoreId) <==> (
            attached_deposit >= old(self).store_cost && !spec_contains_store(
                old(self).stores@,
                prefix@,
            ) && spec_valid_account_id(
                spec_subaccount_bytes(string_bytes(&prefix), string_bytes(&factory_account_id)),
            ) && spec_reserved_prefix(prefix@)),
            r is Ok <==> (attached_deposit >= old(self).store_cost && !spec_contains_store(
                old(self).stores@,
                prefix@,
            ) && spec_valid_account_id(
                spec_subaccount_bytes(string_bytes(&prefix), string_bytes(&factory_account_id)),
            ) && !spec_reserved_prefix(prefix@)),
            r matches Ok(a) ==> (a == (ProvisionAction {
                prefix: prefix,
                public_key: signer_public_key,
                stake: old(self).store_cost,
                init_args: (FtData {
                    owner_id: signer_account_id,
                    marketplace_contract_id: factory_account_id,
                    name: name,
                    symbol: symbol,
                    icon: icon,
                    bg_icon: bg_icon,
                    category: category,
                    description: description,
                    facebook: facebook,
                    twitter: twitter,
                    instagram: instagram,
                    tiktok: tiktok,
                    youtube: youtube,
                    zip: zip,
                    city: city,
                    state: state,
                    country: country,
                }),
                callback: (DeployIntent::Standard {
                    store_creator_id: signer_account_id,
                    prefix: prefix,
                    attached_deposit: attached_deposit,
                }),
            })),
    {
        if attached_deposit < self.store_cost {
            return Err(FactoryError::DepositTooLow);
        }
        if self.check_contains_store(prefix.clone()) {
            return Err(FactoryError::StoreIdTaken);
        }
        if !is_valid_subaccount(&prefix, &factory_account_id) {
            return Err(FactoryError::InvalidStoreId);
        }
        if Self::is_reserved_prefix(&prefix) {
            return Err(FactoryError::ReservedStoreId);
        }
        Ok(ProvisionAction {
            prefix: prefix.clone(),
            public_key: signer_public_key,
            stake: self.store_cost,
            init_args: FtData {
                owner_id: signer_account_id.clone(),
                marketplace_contract_id: factory_account_id,
                name,
                symbol,
                icon,
                bg_icon,
                category,
                description,
                facebook,
                twitter,
                instagram,
                tiktok,
                youtube,
                zip,
                city,
                state,
                country,
            },
            callback: DeployIntent::Standard {
                store_creator_id: signer_account_id,
                prefix,
                attached_deposit,
            },
        })
    }

    /// Purchase callback: reconciles the outcome of the purchase-intake
    /// call issued by `buy`. Exactly one result slot must be present. On
    /// remote success with sale terms in schema, a ledger record is
    /// created with status `Approved` and the deposit stays in escrow; on
    /// an out-of-schema response nothing is written and no funds are
    /// released; on remote failure nothing is written and the buyer's
    /// deposit is returned.
    pub fn buy_callback(
        &mut self,
        buyer_account_id: String,
        attached_deposit: u128,
        product_id: u64,
        store_contract_id: String,
        timeout: u128,
        is_discount: bool,
        is_reward: bool,
        is_keypom: bool,
        hashed_billing_address: String,
        nonce: String,
        now: u64,
        results_count: u64,
        outcome: BuyOutcome,
    ) -> (r: Result<BuyCallbackResult, FactoryError>)
        requires
            attached_deposit <= u128::MAX / 100,
            timeout * 86_400_000_000_000 + u64::MAX <= u128::MAX,
        ensures
            old(self).wf() ==> final(self).wf(),
            results_count != 1 ==> r == Result::<BuyCallbackResult, FactoryError>::Err(
                FactoryError::TooManyResults,
            ) && *final(self) == *old(self),
            results_count == 1 ==> match outcome {
                BuyOutcome::Failed => *final(self) == *old(self) && r == Result::<
                    BuyCallbackResult,
                    FactoryError,
                >::Ok(BuyCallbackResult::Refunded((TransferAction {
                    receiver_id: buyer_account_id,
                    amount: attached_deposit,
                }))),
                BuyOutcome::Invalid => *final(self) == *old(self) && r == Result::<
                    BuyCallbackResult,
                    FactoryError,
                >::Ok(BuyCallbackResult::Rejected),
                BuyOutcome::Confirmed(d) => if spec_terms_valid(d) {
                    &&& final(self).spec_same_except_ledger(*old(self))
                    &&& final(self).transactions@.len() == old(self).transactions@.len() + 1
                    &&& final(self).transactions@.subrange(
                        0,
                        old(self).transactions@.len() as int,
                    ) == old(self).transactions@
                    &&& spec_committed_tx(
                        final(self).transactions@.last(),
                        buyer_account_id,
                        attached_deposit,
                        product_id,
                        store_contract_id,
                        timeout,
                        is_discount,
                        is_reward,
                        is_keypom,
                        hashed_billing_address,
                        nonce,
                        now,
                        d,
                    )
                    &&& r == Result::<BuyCallbackResult, FactoryError>::Ok(
                        BuyCallbackResult::Committed(d),
                    )
                } else {
                    *final(self) == *old(self) && r == Result::<BuyCallbackResult, FactoryError>::Ok(
                        BuyCallbackResult::Rejected,
                    )
                },
            },
    {
        if results_count != 1 {
            return Err(FactoryError::TooManyResults);
        }
        match outcome {
            BuyOutcome::Failed => Ok(BuyCallbackResult::Refunded(TransferAction {
                receiver_id: buyer_account_id,
                amount: attached_deposit,
            })),
            BuyOutcome::Invalid => Ok(BuyCallbackResult::Rejected),
            BuyOutcome::Confirmed(d) => {
                let terms_ok = match &d.affiliate_percentage {
                    Some(p) => *p <= 100,
                    None => true,
                };
                if !terms_ok {
                    return Ok(BuyCallbackResult::Rejected);
                }
                let tx = Transaction {
                    transaction_id: now as u128,
                    product_id,
                    store_contract_id,
                    buyer_id: buyer_account_id,
                    buyer_value_locked: attached_deposit,
                    price: d.price,
                    token_id: d.token_id.clone(),
                    timeout,
                    affiliate: d.affiliate,
                    affiliate_id: clone_opt_string(&d.affiliate_id),
                    affiliate_percentage: d.affiliate_percentage,
                    is_discount,
                    is_reward,
                    is_keypom,
                    status: TransactionStatus::Approved,
                    hashed_billing_address,
                    nonce,
                    ipfs: String::new(),
                    time_created: now,
                };
                self.transactions.push(tx);
                Ok(BuyCallbackResult::Committed(d))
            },
        }
    }

    /// Finds the first ledger record addressed by this key that currently
    /// has the required status.
    fn find_transaction(
        &self,
        transaction_id: u128,
        store_contract_id: &String,
        buyer_id: &String,
        status: TransactionStatus,
    ) -> (r: Option<usize>)
        ensures
            match r {
                Some(i) => spec_first_key_match(
                    self.transactions@,
                    i as int,
                    transaction_id,
                    store_contract_id@,
                    buyer_id@,
                    status,
                ),
                None => spec_no_key_match(
                    self.transactions@,
                    transaction_id,
                    store_contract_id@,
                    buyer_id@,
                    status,
                ),
            },
    {
        let mut i: usize = 0;
        while i < self.transactions.len()
            invariant
                0 <= i <= self.transactions@.len(),
                forall|j: int|
                    0 <= j < i ==> !spec_matches_key(
                        #[trigger] self.transactions@[j],
                        transaction_id,
                        store_contract_id@,
                        buyer_id@,
                        status,
                    ),
            decreases self.transactions@.len() - i,
        {
            let t = &self.transactions[i];
            if t.transaction_id == transaction_id && t.store_contract_id == *store_contract_id
                && t.buyer_id == *buyer_id && t.status == status {
                return Some(i);
            }
            i = i + 1;
        }
        None
    }

    /// Buyer entry point: settle a shipped purchase. Rejected, with no
    /// side effect, unless a record matches the identifier, the store,
    /// the calling buyer, and status Shipped (so settling an Approved or
    /// already resolved purchase is an out-of-order transition and is
    /// rejected). For a reward purchase the host must first issue the
    /// reward-grant call; either way the completion callback performs the
    /// settlement. The factory state does not change here.
    pub fn complete_purchase(
        &mut self,
        transaction_id: u128,
        store_contract_id: String,
        buyer_account_id: String,
    ) -> (r: Result<CompletePurchaseAction, FactoryError>)
        ensures
            *final(self) == *old(self),
            r is Err <==> spec_no_key_match(
                old(self).transactions@,
                transaction_id,
                store_contract_id@,
                buyer_account_id@,
                TransactionStatus::Shipped,
            ),
            r matches Err(e) ==> e == FactoryError::TransactionNotFound,
            r matches Ok(a) ==> {
                &&& spec_first_key_match(
                    old(self).transactions@,
                    a.index as int,
                    transaction_id,
                    store_contract_id@,
                    buyer_account_id@,
                    TransactionStatus::Shipped,
                )
                &&& if old(self).transactions@[a.index as int].is_reward {
                    a.reward matches Some(rc) && rc.store_contract_id == store_contract_id
                        && rc.args == (TokenData {
                        id: old(self).transactions@[a.index as int].product_id,
                        receiver_id: old(self).transactions@[a.index as int].buyer_id,
                    })
                } else {
                    a.reward is None
                }
            },
    {
        match self.find_transaction(
            transaction_id,
            &store_contract_id,
            &buyer_account_id,
            TransactionStatus::Shipped,
        ) {
            None => Err(FactoryError::TransactionNotFound),
            Some(i) => {
                let t = &self.transactions[i];
                if t.is_reward {
                    Ok(CompletePurchaseAction {
                        index: i,
                        reward: Some(RewardCall {
                            store_contract_id: store_contract_id,
                            args: TokenData {
                                id: t.product_id,
                                receiver_id: t.buyer_id.clone(),
                            },
                        }),
                    })
                } else {
                    Ok(CompletePurchaseAction { index: i, reward: None })
                }
            },
        }
    }

    /// Completion callback: reconciles the outcome of the reward-grant
    /// call (or of the trivial chain, for a plain purchase). On remote
    /// failure nothing changes and the buyer may call again. On success
    /// the addressed record must still be Shipped; it then moves to
    /// Delivered and the escrowed amount is split once: the platform
    /// keeps the 2% fee, an enabled affiliate takes its percentage of the
    /// seller's post-fee share (with a token-unlock call to the store),
    /// and the seller receives the remainder. The three shares add up
    /// exactly to the escrowed amount.
    pub fn complete_purchase_callback(&mut self, check_existing: usize, success: bool) -> (r:
        Result<CompletePurchaseResult, FactoryError>)
        requires
            old(self).wf(),
        ensures
            final(self).wf(),
            spec_statuses_evolve(old(self).transactions@, final(self).transactions@),
            !success ==> *final(self) == *old(self) && r == Result::<
                CompletePurchaseResult,
                FactoryError,
            >::Ok(CompletePurchaseResult::RemoteFailed),
            success && !(check_existing < old(self).transactions@.len() && old(
                self,
            ).transactions@[check_existing as int].status is Shipped) ==> *final(self) == *old(self)
                && r == Result::<CompletePurchaseResult, FactoryError>::Err(
                FactoryError::TransactionNotFound,
            ),
            (success && check_existing < old(self).transactions@.len() && old(
                self,
            ).transactions@[check_existing as int].status is Shipped) ==> {
                let t = old(self).transactions@[check_existing as int];
                &&& final(self).spec_same_except_ledger(*old(self))
                &&& final(self).transactions@ == old(self).transactions@.update(
                    check_existing as int,
                    spec_with_status(t, TransactionStatus::Delivered),
                )
                &&& r matches Ok(CompletePurchaseResult::Settled(p)) && {
                    &&& p.seller.receiver_id == t.store_contract_id
                    &&& p.seller.amount == spec_seller_amount(
                        t.buyer_value_locked,
                        spec_affiliate_enabled(t),
                        spec_tx_pct(t),
                    )
                    &&& if spec_affiliate_enabled(t) {
                        &&& p.affiliate matches Some(af) && af.receiver_id == t.affiliate_id->0
                            && af.amount == spec_affiliate_amount(
                            t.buyer_value_locked,
                            true,
                            spec_tx_pct(t),
                        )
                        &&& p.unlock matches Some(ul) && ul.store_contract_id
                            == t.store_contract_id && ul.args == (Token { token_id: t.token_id })
                    } else {
                        p.affiliate is None && p.unlock is None
                    }
                    &&& p.seller.amount + (match p.affiliate {
                        Some(af) => af.amount as int,
                        None => 0,
                    }) + spec_platform_fee(t.buyer_value_locked) == t.buyer_value_locked
                }
            },
    {
        if !success {
            return Ok(CompletePurchaseResult::RemoteFailed);
        }
        if check_existing >= self.transactions.len() {
            return Err(FactoryError::TransactionNotFound);
        }
        let t = self.transactions[check_existing].clone();
        if !(t.status == TransactionStatus::Shipped) {
            return Err(FactoryError::TransactionNotFound);
        }
        let seller_id = t.store_contract_id.clone();
        let unlock_store_id = t.store_contract_id.clone();
        let token_id = t.token_id.clone();
        let affiliate_receiver = clone_opt_string(&t.affiliate_id);
        let value = t.buyer_value_locked;
        let enabled = t.affiliate && affiliate_receiver.is_some();
        let pct = match t.affiliate_percentage {
            Some(p) => p,
            None => 0,
        };
        proof {
            assert(spec_tx_wf(old(self).transactions@[check_existing as int]));
            lemma_funds_conserved(value, enabled, pct);
        }
        let split = compute_payout(value, enabled, pct);
        self.transactions.set(check_existing, Transaction { status: TransactionStatus::Delivered, ..t });
        let actions = if enabled {
            let affiliate_id = match affiliate_receiver {
                Some(a) => a,
                None => unreached(),
            };
            PayoutActions {
                seller: TransferAction { receiver_id: seller_id, amount: split.seller_amount },
                affiliate: Some(TransferAction {
                    receiver_id: affiliate_id,
                    amount: split.affiliate_amount,
                }),
                unlock: Some(UnlockCall {
                    store_contract_id: unlock_store_id,
                    args: Token { token_id },
                }),
            }
        } else {
            PayoutActions {
                seller: TransferAction { receiver_id: seller_id, amount: split.seller_amount },
                affiliate: None,
                unlock: None,
            }
        };
        Ok(CompletePurchaseResult::Settled(actions))
    }

    /// Buyer entry point: dispute a shipped purchase. Rejected, with no
    /// side effect, unless a record matches the identifier, the store,
    /// the calling buyer, and status Shipped; the record then moves to
    /// Disputed and the escrowed funds stay locked.
    pub fn dispute_purchase(
        &mut self,
        transaction_id: u128,
        store_contract_id: String,
        buyer_account_id: String,
    ) -> (r: Result<(), FactoryError>)
        ensures
            old(self).wf() ==> final(self).wf(),
            spec_statuses_evolve(old(self).transactions@, final(self).transactions@),
            r is Err <==> spec_no_key_match(
                old(self).transactions@,
                transaction_id,
                store_contract_id@,
                buyer_account_id@,
                TransactionStatus::Shipped,
            ),
            r matches Err(e) ==> e == FactoryError::TransactionNotFound && *final(self) == *old(
                self,
            ),
            r is Ok ==> exists|i: int|
                {
                    &&& spec_first_key_match(
                        old(self).transactions@,
                        i,
                        transaction_id,
                        store_contract_id@,
                        buyer_account_id@,
                        TransactionStatus::Shipped,
                    )
                    &&& final(self).transactions@ == old(self).transactions@.update(
                        i,
                        spec_with_status(
                            old(self).transactions@[i],
                            TransactionStatus::Disputed,
                        ),
                    )
                    &&& final(self).spec_same_except_ledger(*old(self))
                },
    {
        match self.find_transaction(
            transaction_id,
            &store_contract_id,
            &buyer_account_id,
            TransactionStatus::Shipped,
        ) {
            None => Err(FactoryError::TransactionNotFound),
            Some(i) => {
                let t = self.transactions[i].clone();
                self.transactions.set(i, Transaction { status: TransactionStatus::Disputed, ..t });
                Ok(())
            },
        }
    }

    /// Seller entry point: attach shipment proof to an approved purchase.
    /// Rejected, with no side effect, unless a record matches the
    /// identifier, the store, and the buyer with status Approved. The
    /// seller's identity is not taken on trust: the host must call the
    /// store's ownership-assertion entry point, and only the shipment
    /// callback commits the status change. The factory state does not
    /// change here.
    pub fn mark_shipped(
        &mut self,
        transaction_id: u128,
        buyer_id: String,
        store_contract_id: String,
        ipfs: String,
    ) -> (r: Result<MarkShippedAction, FactoryError>)
        ensures
            *final(self) == *old(self),
            r is Err <==> spec_no_key_match(
                old(self).transactions@,
                transaction_id,
                store_contract_id@,
                buyer_id@,
                TransactionStatus::Approved,
            ),
            r matches Err(e) ==> e == FactoryError::TransactionNotFound,
            r matches Ok(a) ==> {
                &&& spec_first_key_match(
                    old(self).transactions@,
                    a.index as int,
                    transaction_id,
                    store_contract_id@,
                    buyer_id@,
                    TransactionStatus::Approved,
                )
                &&& a.store_contract_id == old(self).transactions@[a.index as int].store_contract_id
                &&& a.ipfs == ipfs
            },
    {
        match self.find_transaction(
            transaction_id,
            &store_contract_id,
            &buyer_id,
            TransactionStatus::Approved,
        ) {
            None => Err(FactoryError::TransactionNotFound),
            Some(i) => {
                let t = &self.transactions[i];
                Ok(MarkShippedAction {
                    index: i,
                    store_contract_id: t.store_contract_id.clone(),
                    ipfs,
                })
            },
        }
    }

    /// Shipment callback: reconciles the outcome of the store's
    /// ownership-assertion call. Exactly one result slot must be present.
    /// Only a confirmed positive verdict commits anything: the addressed
    /// record, which must still be Approved, moves to Shipped and keeps
    /// the shipment proof. A failed call, a response that is not a
    /// boolean, or a negative verdict leaves the ledger untouched.
    pub fn mark_shipped_callback(
        &mut self,
        check_existing: usize,
        ipfs: String,
        results_count: u64,
        outcome: ShipmentOutcome,
    ) -> (r: Result<(), FactoryError>)
        ensures
            old(self).wf() ==> final(self).wf(),
            spec_statuses_evolve(old(self).transactions@, final(self).transactions@),
            r is Err ==> *final(self) == *old(self),
            results_count != 1 ==> r == Result::<(), FactoryError>::Err(
                FactoryError::TooManyResults,
            ),
            results_count == 1 ==> match outcome {
                ShipmentOutcome::Failed => r == Result::<(), FactoryError>::Err(
                    FactoryError::ShipmentCheckFailed,
                ),
                ShipmentOutcome::Invalid => r == Result::<(), FactoryError>::Err(
                    FactoryError::ProtocolViolation,
                ),
                ShipmentOutcome::Confirmed(owned) => if !owned {
                    r == Result::<(), FactoryError>::Err(FactoryError::ShipmentCheckFailed)
                } else if check_existing < old(self).transactions@.len() && old(
                    self,
                ).transactions@[check_existing as int].status is Approved {
                    &&& r is Ok
                    &&& final(self).spec_same_except_ledger(*old(self))
                    &&& final(self).transactions@ == old(self).transactions@.update(
                        check_existing as int,
                        spec_with_status_ipfs(
                            old(self).transactions@[check_existing as int],
                            TransactionStatus::Shipped,
                            ipfs,
                        ),
                    )
                } else {
                    r == Result::<(), FactoryError>::Err(FactoryError::TransactionNotFound)
                },
            },
    {
        if results_count != 1 {
            return Err(FactoryError::TooManyResults);
        }
        match outcome {
            ShipmentOutcome::Failed => Err(FactoryError::ShipmentCheckFailed),
            ShipmentOutcome::Invalid => Err(FactoryError::ProtocolViolation),
            ShipmentOutcome::Confirmed(owned) => {
                if !owned {
                    return Err(FactoryError::ShipmentCheckFailed);
                }
                if check_existing >= self.transactions.len() {
                    return Err(FactoryError::TransactionNotFound);
                }
                let t = self.transactions[check_existing].clone();
                if !(t.status == TransactionStatus::Approved) {
                    return Err(FactoryError::TransactionNotFound);
                }
                self.transactions.set(
                    check_existing,
                    Transaction { status: TransactionStatus::Shipped, ipfs, ..t },
                );
                Ok(())
            },
        }
    }

    /// Buyer entry point: reclaim escrowed funds unilaterally. Succeeds
    /// exactly when a record matches the identifier, the store, and the
    /// calling buyer with status Approved and its refund deadline has
    /// passed; the record then moves to Canceled and the whole escrowed
    /// amount goes back to the buyer, synchronously, with no remote
    /// party involved. Otherwise nothing changes and no funds move.
    pub fn get_refund(
        &mut self,
        transaction_id: u128,
        store_contract_id: String,
        buyer_account_id: String,
        now: u64,
    ) -> (r: Result<TransferAction, FactoryError>)
        requires
            old(self).wf(),
        ensures
            final(self).wf(),
            spec_statuses_evolve(old(self).transactions@, final(self).transactions@),
            r is Err ==> *final(self) == *old(self),
            r == Result::<TransferAction, FactoryError>::Err(FactoryError::TransactionNotFound)
                <==> spec_no_key_match(
                old(self).transactions@,
                transaction_id,
                store_contract_id@,
                buyer_account_id@,
                TransactionStatus::Approved,
            ),
            forall|i: int|
                spec_first_key_match(
                    old(self).transactions@,
                    i,
                    transaction_id,
                    store_contract_id@,
                    buyer_account_id@,
                    TransactionStatus::Approved,
                ) ==> {
                    let t = old(self).transactions@[i];
                    &&& (r is Ok <==> now >= spec_deadline(t.timeout, t.time_created as u128))
                    &&& now < spec_deadline(t.timeout, t.time_created as u128) ==> r == Result::<
                        TransferAction,
                        FactoryError,
                    >::Err(FactoryError::TimeNotElapsed)
                    &&& now >= spec_deadline(t.timeout, t.time_created as u128) ==> {
                        &&& r matches Ok(tr) && tr.receiver_id == buyer_account_id && tr.amount
                            == t.buyer_value_locked
                        &&& final(self).spec_same_except_ledger(*old(self))
                        &&& final(self).transactions@ == old(self).transactions@.update(
                            i,
                            spec_with_status(t, TransactionStatus::Canceled),
                        )
                    }
                },
    {
        match self.find_transaction(
            transaction_id,
            &store_contract_id,
            &buyer_account_id,
            TransactionStatus::Approved,
        ) {
            None => Err(FactoryError::TransactionNotFound),
            Some(i) => {
                let t = self.transactions[i].clone();
                proof {
                    assert(spec_tx_wf(old(self).transactions@[i as int]));
                }
                let deadline = self.calculate_timeout(t.timeout, t.time_created as u128);
                if (now as u128) >= deadline {
                    let amount = t.buyer_value_locked;
                    self.transactions.set(
                        i,
                        Transaction { status: TransactionStatus::Canceled, ..t },
                    );
                    Ok(TransferAction { receiver_id: buyer_account_id, amount })
                } else {
                    Err(FactoryError::TimeNotElapsed)
                }
            },
        }
    }

    /// The refund deadline: the creation timestamp plus the timeout in
    /// days, at nanosecond resolution.
    pub fn calculate_timeout(&self, timeout: u128, timestamp: u128) -> (deadline: u128)
        requires
            spec_deadline(timeout, timestamp) <= u128::MAX,
        ensures
            deadline == spec_deadline(timeout, timestamp),
    {
        proof {
            assert(timeout * 86_400 * 1_000_000_000 == timeout * 86_400_000_000_000)
                by (nonlinear_arith);
            assert(timeout * 86_400 <= timeout * 86_400_000_000_000) by (nonlinear_arith);
        }
        let calc_seconds: u128 = timeout * 86_400;
        let calc_seconds_in_nano: u128 = calc_seconds * 1_000_000_000;
        let total_timestamp: u128 = timestamp + calc_seconds_in_nano;
        total_timestamp
    }
}

} // verus!
