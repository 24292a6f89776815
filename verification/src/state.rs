//! The three persisted records: the configuration singleton, token-registry entries and
//! order records, with the sizes of their fixed layouts.

use vstd::prelude::*;
use vstd::string::StringSliceAdditionalSpecFns;
use crate::address::Address;
use crate::fees::{MAX_COMMISSION_BPS, MAX_PLATFORM_FEE_BPS};

verus! {

/// Bytes of a stored configuration: two identities, three rates, the pause flag, the bump.
pub const CONFIG_LEN: u64 = 72;

/// Bytes of a stored registry entry: the token type, the flag, the bump.
pub const SUPPORTED_TOKEN_LEN: u64 = 34;

/// Longest product reference, in bytes.
pub const MAX_PRODUCT_ID_LEN: usize = 50;

/// Bytes of a stored order record that carries no product reference.
pub const ORDER_RECORD_BASE_LEN: u64 = 163;

/// Bytes that a product reference adds: a length prefix and the longest reference.
pub const PRODUCT_REFERENCE_LEN: u64 = 54;

/// Bytes of a stored order record that carries a product reference.
pub const ORDER_RECORD_LEN: u64 = 217;

/// Bytes of a stored order record of a batch: the sentinel as its product reference, then
/// the product count in eight bytes.
pub const BATCH_RECORD_LEN: u64 = 225;

/// The configuration singleton.
#[derive(Clone, Copy, Debug, PartialEq, Eq)]
pub struct Config {
    /// Identity empowered to administer.
    pub authority: Address,
    /// Identity that owns the holding account receiving settled funds.
    pub hot_wallet: Address,
    /// Current platform fee, in basis points.
    pub platform_fee_bps: u16,
    /// Cap on the platform fee.
    pub max_platform_fee_bps: u16,
    /// Cap on the commission.
    pub max_commission_bps: u16,
    /// While set, no settlement is accepted.
    pub paused: bool,
    /// Discriminant of the configuration's derived address.
    pub bump: u8,
}

impl Config {
    /// The caps are the hard caps and the fee is within its cap.
    pub open spec fn wf(&self) -> bool {
        &&& self.max_platform_fee_bps == MAX_PLATFORM_FEE_BPS
        &&& self.max_commission_bps == MAX_COMMISSION_BPS
        &&& self.platform_fee_bps <= self.max_platform_fee_bps
    }

    /// Tests `wf`.
    pub fn is_wf(&self) -> (r: bool)
        ensures
            r == self.wf(),
    {
        self.max_platform_fee_bps == MAX_PLATFORM_FEE_BPS && self.max_commission_bps
            == MAX_COMMISSION_BPS && self.platform_fee_bps <= self.max_platform_fee_bps
    }
}

/// An entry of the token registry.
#[derive(Clone, Copy, Debug, PartialEq, Eq)]
pub struct SupportedToken {
    /// The token type.
    pub mint: Address,
    /// Whether payments in this token type are accepted.
    pub is_supported: bool,
    /// Discriminant of the entry's derived address.
    pub bump: u8,
}

/// What an order record says of the products bought.
#[derive(Clone, Debug, PartialEq, Eq)]
pub enum ProductReference {
    /// Nothing: the record has the base fields alone.
    Unrecorded,
    /// The reference of the one product bought.
    Single(String),
    /// A batch: the record holds the batch sentinel and the number of products.
    Batch { count: u64 },
}

/// The receipt of one settled order. Its existence at the order's derived address marks the
/// order as processed.
#[derive(Clone, Debug, PartialEq, Eq)]
pub struct OrderRecord {
    /// The order identifier.
    pub order_id: [u8; 32],
    /// Who paid.
    pub buyer: Address,
    /// Token type of the payment.
    pub token_mint: Address,
    /// Gross amount.
    pub amount: u64,
    /// Platform fee charged.
    pub platform_fee: u64,
    /// Commission credited to the affiliate.
    pub commission: u64,
    /// Commission rate, in basis points.
    pub commission_bps: u16,
    /// The affiliate.
    pub api_key_owner: Address,
    /// What was bought, as far as the record says.
    pub product: ProductReference,
    /// When the order was settled.
    pub timestamp: i64,
    /// Discriminant of the record's derived address.
    pub bump: u8,
}

/// Bytes of a string in its UTF-8 encoding.
pub open spec fn utf8_len(s: Seq<char>) -> nat {
    vstd::utf8::encode_utf8(s).len()
}

impl ProductReference {
    /// The number of products bought: one unless the record is of a batch.
    pub open spec fn spec_count(&self) -> u64 {
        match self {
            ProductReference::Batch { count } => *count,
            _ => 1,
        }
    }

    /// The number of products bought: one unless the record is of a batch.
    pub fn count(&self) -> (n: u64)
        ensures
            n == self.spec_count(),
    {
        match self {
            ProductReference::Batch { count } => *count,
            _ => 1,
        }
    }
}

impl OrderRecord {
    /// A product reference fits the bytes reserved for it.
    pub open spec fn wf(&self) -> bool {
        self.product matches ProductReference::Single(s) ==> utf8_len(s@) <= MAX_PRODUCT_ID_LEN
    }

    /// Size of the record's layout: the base fields, and what its product reference adds.
    pub open spec fn space(&self) -> u64 {
        match self.product {
            ProductReference::Unrecorded => ORDER_RECORD_BASE_LEN,
            ProductReference::Single(_) => ORDER_RECORD_LEN,
            ProductReference::Batch { .. } => BATCH_RECORD_LEN,
        }
    }

    /// Tests `wf`.
    pub fn is_wf(&self) -> (r: bool)
        ensures
            r == self.wf(),
    {
        match &self.product {
            ProductReference::Single(s) => {
                let bytes: &[u8] = s.as_str().as_bytes();
                bytes.len() <= MAX_PRODUCT_ID_LEN
            },
            _ => true,
        }
    }

    /// Size of the record's layout.
    pub fn layout_len(&self) -> (n: u64)
        ensures
            n == self.space(),
    {
        match &self.product {
            ProductReference::Unrecorded => ORDER_RECORD_BASE_LEN,
            ProductReference::Single(_) => ORDER_RECORD_LEN,
            ProductReference::Batch { .. } => BATCH_RECORD_LEN,
        }
    }
}

/// Name of the configuration under the manual-validation front end.
pub type PaymentConfig = Config;

/// Name of the order record under the manual-validation front end.
pub type ProcessedOrder = OrderRecord;

/// What an allocation holds.
#[derive(Clone, Debug, PartialEq, Eq)]
pub enum Entity {
    Config(Config),
    Token(SupportedToken),
    Order(OrderRecord),
}

impl Entity {
    /// Size of the record's fixed layout.
    pub open spec fn space(&self) -> u64 {
        match self {
            Entity::Config(_) => CONFIG_LEN,
            Entity::Token(_) => SUPPORTED_TOKEN_LEN,
            Entity::Order(o) => o.space(),
        }
    }

    /// A configuration is well formed; an order's product reference fits its layout.
    pub open spec fn wf(&self) -> bool {
        match self {
            Entity::Config(c) => c.wf(),
            Entity::Token(_) => true,
            Entity::Order(o) => o.wf(),
        }
    }

    /// Size of the record's fixed layout.
    pub fn layout_len(&self) -> (n: u64)
        ensures
            n == self.space(),
    {
        match self {
            Entity::Config(_) => CONFIG_LEN,
            Entity::Token(_) => SUPPORTED_TOKEN_LEN,
            Entity::Order(o) => o.layout_len(),
        }
    }

    /// Tests `wf`.
    pub fn is_wf(&self) -> (r: bool)
        ensures
            r == self.wf(),
    {
        match self {
            Entity::Config(c) => c.is_wf(),
            Entity::Token(_) => true,
            Entity::Order(o) => o.is_wf(),
        }
    }
}

/// Storage at one address: who funded it, how large it is, what it holds.
#[derive(Clone, Debug, PartialEq, Eq)]
pub struct Allocation {
    pub address: Address,
    pub payer: Address,
    pub space: u64,
    pub entity: Entity,
}

} // verus!
