//! Data model of the factory: the escrow transaction record, the payload
//! types exchanged with store sub-programs, the intent values that describe
//! pending remote actions, and the error taxonomy.

use vstd::prelude::*;

verus! {

/// Lifecycle status of an escrow transaction.
///
/// The legal transitions are: a record is created as `Approved` by the
/// purchase callback; `Approved` moves to `Shipped` once the store's
/// ownership check confirms shipment; `Shipped` moves to `Delivered`
/// (funds released) or `Disputed` (funds stay locked); `Approved` moves to
/// `Canceled` when the buyer reclaims funds after the timeout.
#[derive(Clone, Copy, PartialEq, Eq, Structural, Debug)]
pub enum TransactionStatus {
    Approved,
    Shipped,
    Delivered,
    Disputed,
    Canceled,
}

/// A status that still blocks a second escrow purchase of the same product
/// by the same buyer at the same store.
pub open spec fn spec_is_open(s: TransactionStatus) -> bool {
    !(s is Delivered || s is Disputed || s is Canceled)
}

/// The transition graph of the escrow state machine.
pub open spec fn spec_step_allowed(from: TransactionStatus, to: TransactionStatus) -> bool {
    ||| (from is Approved && to is Shipped)
    ||| (from is Shipped && to is Delivered)
    ||| (from is Shipped && to is Disputed)
    ||| (from is Approved && to is Canceled)
}

/// One escrowed purchase. Created only by the purchase callback on remote
/// success; afterwards mutated in place, never deleted.
#[derive(Debug)]
pub struct Transaction {
    /// Unique identifier, derived from the creation timestamp.
    pub transaction_id: u128,
    pub product_id: u64,
    pub store_contract_id: String,
    pub buyer_id: String,
    /// Native currency held in escrow by the factory for the buyer.
    pub buyer_value_locked: u128,
    /// Sale price reported back by the store.
    pub price: u128,
    /// Unit sold or minted, reported back by the store.
    pub token_id: String,
    /// Days after which an unshipped purchase becomes refundable.
    pub timeout: u128,
    pub affiliate: bool,
    pub affiliate_id: Option<String>,
    pub affiliate_percentage: Option<u32>,
    pub is_discount: bool,
    pub is_reward: bool,
    pub is_keypom: bool,
    pub status: TransactionStatus,
    /// Opaque buyer-supplied metadata, never interpreted by the factory.
    pub hashed_billing_address: String,
    pub nonce: String,
    /// Content pointer set when the seller attaches shipment proof.
    pub ipfs: String,
    /// Creation timestamp in nanoseconds, for auditing and the refund
    /// deadline.
    pub time_created: u64,
}

impl Clone for Transaction {
    fn clone(&self) -> (res: Self)
        ensures
            res == *self,
    {
        Transaction {
            transaction_id: self.transaction_id,
            product_id: self.product_id,
            store_contract_id: self.store_contract_id.clone(),
            buyer_id: self.buyer_id.clone(),
            buyer_value_locked: self.buyer_value_locked,
            price: self.price,
            token_id: self.token_id.clone(),
            timeout: self.timeout,
            affiliate: self.affiliate,
            affiliate_id: clone_opt_string(&self.affiliate_id),
            affiliate_percentage: self.affiliate_percentage,
            is_discount: self.is_discount,
            is_reward: self.is_reward,
            is_keypom: self.is_keypom,
            status: self.status,
            hashed_billing_address: self.hashed_billing_address.clone(),
            nonce: self.nonce.clone(),
            ipfs: self.ipfs.clone(),
            time_created: self.time_created,
        }
    }
}

/// Clones an optional account identifier, preserving the value exactly.
pub fn clone_opt_string(s: &Option<String>) -> (res: Option<String>)
    ensures
        res == *s,
{
    match s {
        Some(v) => Some(v.clone()),
        None => None,
    }
}

/// Delegated-claim metadata forwarded by a claim service; carried through
/// unchanged and never interpreted.
#[derive(Debug)]
pub struct KeypomArgs {
    pub account_id_field: Option<String>,
    pub drop_id_field: Option<String>,
    pub key_id_field: Option<String>,
    pub funder_id_field: Option<String>,
}

/// Arguments of the purchase-intake call sent to a store.
#[derive(Debug)]
pub struct Buy {
    pub id: u64,
    pub receiver_id: String,
    pub attached_deposit: u128,
    pub color: String,
    pub affiliate: Option<String>,
}

/// Owner metadata of a store.
#[derive(Debug)]
pub struct Metadata {
    pub receiver_id: String,
}

/// Empty argument payload for remote calls that take none.
#[derive(Debug)]
pub struct EmptyData {}

/// Initializer arguments for a newly deployed store sub-program.
#[derive(Debug)]
pub struct FtData {
    pub owner_id: String,
    pub marketplace_contract_id: String,
    pub name: String,
    pub symbol: String,
    pub icon: String,
    pub bg_icon: String,
    pub category: String,
    pub description: String,
    pub facebook: String,
    pub twitter: String,
    pub instagram: String,
    pub tiktok: String,
    pub youtube: String,
    pub zip: String,
    pub city: String,
    pub state: String,
    pub country: String,
}

/// Arguments of the reward-grant call sent to a store.
#[derive(Debug)]
pub struct TokenData {
    pub id: u64,
    pub receiver_id: String,
}

/// Arguments of the token-unlock call sent to a store.
#[derive(Debug)]
pub struct Token {
    pub token_id: String,
}

/// Sale terms reported back by a store on a successful purchase-intake call.
#[derive(Debug)]
pub struct MarketplaceData {
    pub price: u128,
    pub affiliate: bool,
    pub affiliate_id: Option<String>,
    pub affiliate_percentage: Option<u32>,
    pub token_id: String,
    pub token_owner: String,
    pub store_owner: String,
}

/// Sale terms are in schema only if an affiliate percentage, when present,
/// is at most one hundred; anything else is a protocol violation and must
/// not reach the ledger.
pub open spec fn spec_terms_valid(d: MarketplaceData) -> bool {
    d.affiliate_percentage matches Some(p) ==> p <= 100
}

/// A pending native-currency transfer the host must perform.
#[derive(Debug)]
pub struct TransferAction {
    pub receiver_id: String,
    pub amount: u128,
}

/// Which deploy callback resumes a provisioning chain, and with what.
#[derive(Debug)]
pub enum DeployIntent {
    /// Resume in the delegated-claim deploy callback, which registers the
    /// prefix on success and does not track the payer.
    Keypom { prefix: String },
    /// Resume in the standard deploy callback, which registers the prefix
    /// on success and refunds the creator's deposit on failure.
    Standard { store_creator_id: String, prefix: String, attached_deposit: u128 },
}

/// The causally chained provisioning sequence a store-creation decision
/// asks the host to issue: create the sub-account `<prefix>.<factory>`,
/// attach the full-access key, transfer the stake, deploy the store
/// program, invoke its initializer, and resume in a deploy callback. If
/// any step fails the whole chain is reported as failed to the callback.
#[derive(Debug)]
pub struct ProvisionAction {
    pub prefix: String,
    pub public_key: String,
    pub stake: u128,
    pub init_args: FtData,
    pub callback: DeployIntent,
}

/// Everything the purchase callback needs to finish a `buy`: the intent
/// half of the request/continuation pair, submitted together with the
/// outgoing purchase-intake call.
#[derive(Debug)]
pub struct BuyIntent {
    pub buyer_account_id: String,
    pub attached_deposit: u128,
    pub product_id: u64,
    pub store_contract_id: String,
    pub timeout: u128,
    pub is_discount: bool,
    pub is_reward: bool,
    pub is_keypom: bool,
    pub hashed_billing_address: String,
    pub nonce: String,
}

/// The remote purchase-intake call a `buy` decision asks the host to
/// issue.
#[derive(Debug)]
pub struct BuyAction {
    /// Call the purchase-intake entry point of this store...
    pub store_contract_id: String,
    /// ...with these arguments...
    pub args: Buy,
    /// ...attaching this deposit...
    pub deposit: u128,
    /// ...and resume in the purchase callback with this intent.
    pub intent: BuyIntent,
}

/// Outcome of the remote purchase-intake call, as delivered to the
/// purchase callback.
#[derive(Debug)]
pub enum BuyOutcome {
    /// The remote call failed and the whole chain was reverted.
    Failed,
    /// The remote call succeeded but its response was not in schema.
    Invalid,
    /// The remote call succeeded with these sale terms.
    Confirmed(MarketplaceData),
}

/// What the purchase callback committed.
#[derive(Debug)]
pub enum BuyCallbackResult {
    /// The sale terms were accepted and a ledger record was created.
    Committed(MarketplaceData),
    /// The response violated the protocol: nothing was written and no
    /// funds move.
    Rejected,
    /// The remote call failed: nothing was written and the host must
    /// return the buyer's deposit.
    Refunded(TransferAction),
}

/// The reward-grant call issued before settling a reward purchase.
#[derive(Debug)]
pub struct RewardCall {
    pub store_contract_id: String,
    pub args: TokenData,
}

/// What `complete_purchase` asks the host to do: issue the reward-grant
/// call when the purchase is a reward purchase, then resume in the
/// completion callback for the ledger record at `index`.
#[derive(Debug)]
pub struct CompletePurchaseAction {
    pub index: usize,
    pub reward: Option<RewardCall>,
}

/// The token-unlock call bundled with an affiliate settlement.
#[derive(Debug)]
pub struct UnlockCall {
    pub store_contract_id: String,
    pub args: Token,
}

/// The fund movements that settle a delivered purchase. The platform fee
/// is whatever part of the escrowed amount these transfers leave behind.
#[derive(Debug)]
pub struct PayoutActions {
    /// The seller's share, sent to the store sub-account.
    pub seller: TransferAction,
    /// The affiliate's cut, when an affiliate is attached and enabled.
    pub affiliate: Option<TransferAction>,
    /// The token-unlock call bundled with an affiliate settlement.
    pub unlock: Option<UnlockCall>,
}

/// What the completion callback decided.
#[derive(Debug)]
pub enum CompletePurchaseResult {
    /// The record moved to Delivered and the escrow is distributed.
    Settled(PayoutActions),
    /// The remote reward call failed: nothing changed and the buyer may
    /// call again.
    RemoteFailed,
}

/// What `mark_shipped` asks the host to do: call the store's
/// ownership-assertion entry point, then resume in the shipment callback
/// for the ledger record at `index` with the shipment proof.
#[derive(Debug)]
pub struct MarkShippedAction {
    pub index: usize,
    pub store_contract_id: String,
    pub ipfs: String,
}

/// Outcome of the remote ownership-assertion call, as delivered to the
/// shipment callback.
#[derive(Debug)]
pub enum ShipmentOutcome {
    /// The remote call failed and the whole chain was reverted.
    Failed,
    /// The remote call succeeded but its response was not a boolean.
    Invalid,
    /// The remote call succeeded with this ownership verdict.
    Confirmed(bool),
}

/// Decides whether a status still blocks a second escrow purchase.
pub fn status_is_open(s: TransactionStatus) -> (b: bool)
    ensures
        b == spec_is_open(s),
{
    match s {
        TransactionStatus::Delivered => false,
        TransactionStatus::Disputed => false,
        TransactionStatus::Canceled => false,
        _ => true,
    }
}

/// Why a call was rejected. Every rejection happens before any state
/// mutation or fund movement.
#[derive(Clone, Copy, PartialEq, Eq, Structural, Debug)]
pub enum FactoryError {
    /// The attached deposit does not cover the store provisioning stake.
    DepositTooLow,
    /// The store prefix is already registered.
    StoreIdTaken,
    /// The derived sub-account name is not a valid account identifier.
    InvalidStoreId,
    /// The store prefix is a reserved platform namespace.
    ReservedStoreId,
    /// An open transaction for the same product, store, and buyer exists.
    DoubleEscrow,
    /// No ledger entry matches the key and the required status.
    TransactionNotFound,
    /// A callback observed a number of result slots other than one.
    TooManyResults,
    /// A remote response did not match the expected schema.
    ProtocolViolation,
    /// The store's ownership check failed or the remote call did not
    /// complete.
    ShipmentCheckFailed,
    /// The refund deadline has not passed yet.
    TimeNotElapsed,
}

} // verus!
