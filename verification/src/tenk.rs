//! The sale: who may mint how many items at which price, the items and
//! escrow vaults a mint produces, and what a burn sets in motion.

pub mod admission;
pub mod laws;
pub mod minting;
pub mod setup;
pub mod types;
pub mod views;

use crate::account::{decimal, distinct, optional_text, vault_account_name};
use crate::allowance::{spec_get_or_create, Allowance, Whitelist};
use crate::status::{spec_phase, Status, NANOS_PER_MILLI};
use crate::tenk::types::{MetadataFault, NFTContractMetadata, Sale, Token};
use crate::vault::{cleared, deposit_states, DepositState};
pub use crate::vault::TokenDeposit;
use vstd::prelude::*;

verus! {

/// What a mint through [`Contract::nft_mint_one`] must attach at least, and
/// what every new vault is funded with.
pub const VAULT_FUNDING: u128 = 2_000_000_000_000_000_000_000_000;

/// The gas given to the call that opens a vault.
pub const VAULT_INIT_GAS: u64 = 10_000_000_000_000;

/// The gas given to the call that releases a vault.
pub const VAULT_RELEASE_GAS: u64 = 200_000_000_000_000;

/// What a burn must attach, no more and no less.
pub const ONE_YOCTO: u128 = 1;

/// What the host charges for one byte of storage.
pub const STORAGE_PRICE_PER_BYTE: u128 = 10_000_000_000_000_000_000;

/// The account that may act as owner besides the owner.
pub open spec fn tech_backup_owner() -> Seq<char> {
    "willem.near"@
}

/// The media reference every item carries.
pub open spec fn item_media() -> Seq<char> {
    "1.png"@
}

/// The sale and its bookkeeping.
#[derive(Clone, Debug)]
pub struct Contract {
    pub owner_id: String,
    pub metadata: NFTContractMetadata,
    /// Items promised to links that have not been claimed yet.
    pub pending_tokens: u32,
    pub whitelist: Whitelist,
    pub sale: Sale,
    pub admins: Vec<String>,
    pub media_extension: Option<String>,
    pub signer_accounts: Vec<String>,
    /// The identifier of the item minted last; identifiers count up from 1
    /// and are never used twice.
    pub last_id: u64,
}

/// What the host reports about the call being handled.
#[derive(Clone, Debug)]
pub struct CallContext {
    /// The account that called.
    pub predecessor_account_id: String,
    /// The account that signed the transaction.
    pub signer_account_id: String,
    /// The sale's own account.
    pub current_account_id: String,
    pub attached_deposit: u128,
    /// Block time in nanoseconds.
    pub block_timestamp: u64,
}

/// Why a sale could not be set up.
#[derive(Clone, Copy, Debug, PartialEq, Eq, Structural)]
pub enum InitError {
    /// The collection's metadata is malformed.
    Metadata(MetadataFault),
    /// The sale's configuration is not valid.
    InvalidSale,
    /// The media extension starts with a dot.
    MediaExtension,
    /// The default price could not be read.
    Price,
}

/// Why a call to the sale was turned down.
#[derive(Clone, Copy, Debug, PartialEq, Eq, Structural)]
pub enum MintError {
    /// More was asked for than one call may mint.
    RateLimitExceeded,
    /// The sale is closed or sold out.
    NotMintable { status: Status },
    /// The account may not mint anything more.
    NoAllowanceLeft,
    /// More was to be counted against the allowance than it has left.
    AllowanceExceeded,
    /// Less is attached than the call costs.
    InsufficientDeposit,
    /// The caller may not do this.
    Unauthorized,
    /// Something other than the one unit a burn takes is attached.
    OneYoctoRequired,
    /// The account holds an item already.
    AlreadyMinted,
    /// The step before a link's claim failed.
    LinkdropFailed,
}

impl InitError {
    /// What to tell the caller.
    pub open spec fn spec_message(&self) -> Seq<char> {
        match self {
            InitError::Metadata(MetadataFault::WrongSpec) => "Spec is not NFT metadata"@,
            InitError::Metadata(MetadataFault::ReferenceWithoutHash) => "Reference and reference hash must be present"@,
            InitError::Metadata(MetadataFault::HashLength) => "Hash has to be 32 bytes"@,
            InitError::InvalidSale => "Sale is not valid"@,
            InitError::MediaExtension => "media extension must not start with '.'"@,
            InitError::Price => "Cannot parse price"@,
        }
    }

    /// What to tell the caller.
    pub fn message(&self) -> (text: String)
        ensures
            text@ == self.spec_message(),
    {
        match self {
            InitError::Metadata(MetadataFault::WrongSpec) => "Spec is not NFT metadata".to_owned(),
            InitError::Metadata(MetadataFault::ReferenceWithoutHash) => "Reference and reference hash must be present".to_owned(),
            InitError::Metadata(MetadataFault::HashLength) => "Hash has to be 32 bytes".to_owned(),
            InitError::InvalidSale => "Sale is not valid".to_owned(),
            InitError::MediaExtension => "media extension must not start with '.'".to_owned(),
            InitError::Price => "Cannot parse price".to_owned(),
        }
    }
}

impl MintError {
    /// What to tell the caller.
    pub open spec fn spec_message(&self) -> Seq<char> {
        match self {
            MintError::RateLimitExceeded => "over mint limit"@,
            MintError::NotMintable { status: Status::SoldOut } => "No NFTs left to mint"@,
            MintError::NotMintable { .. } => "Contract currently closed"@,
            MintError::NoAllowanceLeft => "Account has no more allowance left"@,
            MintError::AllowanceExceeded => "Account asked for more than its allowance has left"@,
            MintError::InsufficientDeposit => "Not enough attached deposit to buy"@,
            MintError::Unauthorized => "Unauthorized"@,
            MintError::OneYoctoRequired => "Requires attached deposit of exactly 1 yoctoNEAR"@,
            MintError::AlreadyMinted => "You have already minted membership NFT"@,
            MintError::LinkdropFailed => "Promise before Linkdrop callback failed"@,
        }
    }

    /// What to tell the caller.
    pub fn message(&self) -> (text: String)
        ensures
            text@ == self.spec_message(),
    {
        match self {
            MintError::RateLimitExceeded => "over mint limit".to_owned(),
            MintError::NotMintable { status: Status::SoldOut } => "No NFTs left to mint".to_owned(),
            MintError::NotMintable { .. } => "Contract currently closed".to_owned(),
            MintError::NoAllowanceLeft => "Account has no more allowance left".to_owned(),
            MintError::AllowanceExceeded => "Account asked for more than its allowance has left".to_owned(),
            MintError::InsufficientDeposit => "Not enough attached deposit to buy".to_owned(),
            MintError::Unauthorized => "Unauthorized".to_owned(),
            MintError::OneYoctoRequired => "Requires attached deposit of exactly 1 yoctoNEAR".to_owned(),
            MintError::AlreadyMinted => "You have already minted membership NFT".to_owned(),
            MintError::LinkdropFailed => "Promise before Linkdrop callback failed".to_owned(),
        }
    }
}

/// The order to open the vault of a freshly minted item: create the account,
/// fund it, install the vault and initialise it with these values.
#[derive(Clone, Debug)]
pub struct VaultOrder {
    pub account_id: String,
    pub owner_id: String,
    pub token_id: String,
    pub near_amount: u128,
    pub token_deposit: Vec<TokenDeposit>,
    pub funding: u128,
    /// Whether the item was counted against the buyer's allowance, so that
    /// the count can be taken back should the vault not open.
    pub counted: bool,
}

/// What a mint produced.
#[derive(Clone, Debug)]
pub struct MintReceipt {
    pub tokens: Vec<Token>,
    pub vaults: Vec<VaultOrder>,
}

/// What a burn sets in motion: the item leaves the ownership records, and the
/// item's vault is asked to release to the owner.
#[derive(Clone, Debug)]
pub struct BurnReceipt {
    pub token_id: String,
    pub owner_id: String,
    pub vault_account_id: String,
}

/// What becomes of the attached value once the items are stored.
#[derive(Clone, Copy, Debug, PartialEq, Eq, Structural)]
pub enum Settlement {
    /// Nothing: the mint was free.
    Free,
    /// What is left after storage is split as initial royalties.
    Royalties { left_over_funds: u128 },
    /// Storage is charged to the attached value, and what exceeds it goes to
    /// the owner.
    RefundDeposit { storage_used: u64 },
}

/// The smaller of two counts.
pub open spec fn at_most(wanted: int, limit: int) -> int {
    if wanted <= limit {
        wanted
    } else {
        limit
    }
}

/// `token` is item number `id`, owned by `owner`, minted at block time
/// `block_timestamp`.
pub open spec fn is_item(token: Token, id: int, owner: Seq<char>, block_timestamp: u64) -> bool {
    &&& id >= 0
    &&& token.token_id@ == decimal(id as nat)
    &&& token.owner_id@ == owner
    &&& optional_text(token.metadata.title) == Some(decimal(id as nat))
    &&& optional_text(token.metadata.media) == Some(item_media())
    &&& optional_text(token.metadata.issued_at) == Some(decimal(block_timestamp as nat))
}

/// `tokens` are the `num` items that follow item number `last_id`, in order.
pub open spec fn are_items(
    tokens: Seq<Token>,
    last_id: u64,
    num: int,
    owner: Seq<char>,
    block_timestamp: u64,
) -> bool {
    &&& tokens.len() == num
    &&& forall|i: int|
        0 <= i < num ==> is_item(#[trigger] tokens[i], last_id + 1 + i, owner, block_timestamp)
}

/// `order` opens the vault of item number `id` under the sale's account
/// `current`, for `owner`, with the declared base amount and tokens. The
/// vault is seeded with every declaration unconfirmed, whatever the
/// declaration claimed, and funded with [`VAULT_FUNDING`].
pub open spec fn is_vault_order(
    order: VaultOrder,
    id: int,
    current: Seq<char>,
    owner: Seq<char>,
    near_amount: u128,
    declared: Seq<DepositState>,
    counted: bool,
) -> bool {
    &&& id >= 0
    &&& order.account_id@ == vault_account_name(decimal(id as nat), current)
    &&& order.owner_id@ == owner
    &&& order.token_id@ == decimal(id as nat)
    &&& order.near_amount == near_amount
    &&& deposit_states(order.token_deposit@) == cleared(declared)
    &&& order.token_deposit@.len() == declared.len()
    &&& forall|j: int|
        0 <= j < order.token_deposit@.len() ==> !(#[trigger] order.token_deposit@[j]).is_deposited
            && order.token_deposit@[j].token_contract_id@ == declared[j].contract
            && order.token_deposit@[j].token_amount == declared[j].amount
    &&& order.funding == VAULT_FUNDING
    &&& order.counted == counted
}

/// `orders` open one vault for each of the `num` items that follow item
/// number `last_id`, in order.
pub open spec fn are_vault_orders(
    orders: Seq<VaultOrder>,
    last_id: u64,
    num: int,
    current: Seq<char>,
    owner: Seq<char>,
    near_amount: u128,
    declared: Seq<DepositState>,
    counted: bool,
) -> bool {
    &&& orders.len() == num
    &&& forall|i: int|
        0 <= i < num ==> is_vault_order(
            #[trigger] orders[i],
            last_id + 1 + i,
            current,
            owner,
            near_amount,
            declared,
            counted,
        )
}

/// Why a burn is refused, if it is: exactly one unit must be attached, and
/// the caller must be the item's recorded owner. An item without a recorded
/// owner is nobody's to burn.
pub open spec fn burn_fault(ctx: CallContext, recorded_owner: Option<String>) -> Option<MintError> {
    if ctx.attached_deposit != ONE_YOCTO {
        Some(MintError::OneYoctoRequired)
    } else if recorded_owner is None || recorded_owner->0@ != ctx.predecessor_account_id@ {
        Some(MintError::Unauthorized)
    } else {
        None
    }
}

/// `after` and `outcome` are what a request for `num` items in the call
/// `ctx` makes of the sale `before`.
///
/// A request that is turned down changes nothing. One that is granted mints
/// the granted number of items for the caller, numbered onward from the last
/// one, orders a vault for each, owned by the caller and seeded with the
/// declared base amount and the declared tokens, none of them confirmed, and
/// counts the items against the caller's allowance.
pub open spec fn is_mint(
    before: Contract,
    after: Contract,
    ctx: CallContext,
    num: u16,
    near_amount: u128,
    declared: Seq<DepositState>,
    outcome: Result<MintReceipt, MintError>,
) -> bool {
    let status = before.spec_status(ctx.block_timestamp);
    let buyer = ctx.predecessor_account_id@;
    let verdict = before.spec_mint(status, buyer, num, ctx.attached_deposit);
    match outcome {
        Ok(receipt) => {
            &&& verdict is Ok
            &&& are_items(receipt.tokens@, before.last_id, verdict->Ok_0 as int, buyer, ctx.block_timestamp)
            &&& are_vault_orders(
                receipt.vaults@,
                before.last_id,
                verdict->Ok_0 as int,
                ctx.current_account_id@,
                buyer,
                near_amount,
                declared,
                before.spec_counted(status, buyer),
            )
            &&& after.last_id == before.last_id + verdict->Ok_0
            &&& after.whitelist@ == before.whitelist_after_mint(status, buyer, verdict->Ok_0)
            &&& after.owner_id == before.owner_id
            &&& after.metadata == before.metadata
            &&& after.pending_tokens == before.pending_tokens
            &&& after.sale == before.sale
            &&& after.admins == before.admins
            &&& after.media_extension == before.media_extension
            &&& after.signer_accounts == before.signer_accounts
            &&& before.wf() ==> after.wf()
        },
        Err(e) => verdict == Err::<u16, MintError>(e) && after == before,
    }
}

impl Contract {
    /// `account` is the owner or the account that may act as owner.
    pub open spec fn spec_is_owner(&self, account: Seq<char>) -> bool {
        account == self.owner_id@ || account == tech_backup_owner()
    }

    /// The stage of the sale at block time `block_timestamp`.
    pub open spec fn spec_status(&self, block_timestamp: u64) -> Status {
        spec_phase(
            block_timestamp / NANOS_PER_MILLI,
            self.sale.presale_start,
            self.sale.public_sale_start,
        )
    }

    /// The price of one item in the given stage: before the public sale the
    /// presale price where one is set, the regular price otherwise.
    pub open spec fn spec_price(&self, status: Status) -> u128 {
        match status {
            Status::Presale | Status::Closed => match self.sale.presale_price {
                Some(price) => price,
                None => self.sale.price,
            },
            Status::Open | Status::SoldOut => self.sale.price,
        }
    }

    /// What one item costs `minter`: nothing for the owner, the price
    /// otherwise.
    pub open spec fn spec_cost_per_token(&self, status: Status, minter: Seq<char>) -> u128 {
        if self.spec_is_owner(minter) {
            0
        } else {
            self.spec_price(status)
        }
    }

    /// The allowance `account` mints under in the public sale with the cap
    /// `cap`: what is stored for it, or a fresh one, raised to the cap.
    pub open spec fn spec_public_allowance(&self, account: Seq<char>, cap: u16) -> Allowance {
        spec_get_or_create(
            if self.whitelist@.contains_key(account) {
                Some(self.whitelist@[account])
            } else {
                None
            },
            cap,
        ).spec_raise_max(cap)
    }

    /// How many items `account`, who is not the owner, may mint in the given
    /// stage: in the presale what its stored allowance has left, and nothing
    /// without one; in the public sale what its allowance raised to the cap
    /// has left, and any number without a cap; otherwise nothing.
    pub open spec fn spec_allowance_left(&self, status: Status, account: Seq<char>) -> Option<nat> {
        match status {
            Status::Presale => if self.whitelist@.contains_key(account) {
                Some(self.whitelist@[account].spec_left())
            } else {
                Some(0)
            },
            Status::Open => match self.sale.allowance {
                Some(cap) => Some(self.spec_public_allowance(account, cap).spec_left()),
                None => None,
            },
            _ => Some(0),
        }
    }

    /// How many of the `num` items asked for `account` gets, or why none.
    ///
    /// The owner gets what was asked for, free of charge. For anyone else
    /// the sale must be in presale or open, the number is cut down to what
    /// the account may still mint and must then be more than nothing, and
    /// the attached value must cover that many items at the stage's price.
    pub open spec fn mint_verdict(
        &self,
        status: Status,
        account: Seq<char>,
        num: u16,
        attached_deposit: u128,
    ) -> Result<u16, MintError> {
        if self.spec_is_owner(account) {
            Ok(num)
        } else if status == Status::SoldOut || status == Status::Closed {
            Err(MintError::NotMintable { status })
        } else {
            let granted = match self.spec_allowance_left(status, account) {
                Some(left) => at_most(num as int, left as int),
                None => num as int,
            };
            if granted <= 0 {
                Err(MintError::NoAllowanceLeft)
            } else if attached_deposit < granted * self.spec_price(status) {
                Err(MintError::InsufficientDeposit)
            } else {
                Ok(granted as u16)
            }
        }
    }

    /// Whether mints are counted against allowances in the given stage.
    pub open spec fn spec_has_allowance(&self, status: Status) -> bool {
        self.sale.allowance is Some || status == Status::Presale
    }

    /// The allowance table after `account` minted `quantity` items in the
    /// given stage. The owner's mints are not counted, nor are mints in a
    /// public sale without a cap: they leave the table as it is.
    pub open spec fn whitelist_after_mint(&self, status: Status, account: Seq<char>, quantity: u16) -> Map<
        Seq<char>,
        Allowance,
    > {
        if self.spec_is_owner(account) {
            self.whitelist@
        } else if status == Status::Presale && self.whitelist@.contains_key(account) {
            self.whitelist@.insert(account, self.whitelist@[account].spec_use_num(quantity))
        } else if status == Status::Open && self.sale.allowance is Some {
            self.whitelist@.insert(
                account,
                self.spec_public_allowance(account, self.sale.allowance->0).spec_use_num(quantity),
            )
        } else {
            self.whitelist@
        }
    }

    /// The outcome of a request for `num` items: the rate limit comes first,
    /// then the verdict on the account, and last the funding of the vaults:
    /// what is attached must cover [`VAULT_FUNDING`] for every item granted,
    /// whoever mints.
    pub open spec fn spec_mint(&self, status: Status, account: Seq<char>, num: u16, attached_deposit: u128) -> Result<
        u16,
        MintError,
    > {
        if self.spec_rate_limited(num) {
            Err(MintError::RateLimitExceeded)
        } else {
            match self.mint_verdict(status, account, num, attached_deposit) {
                Ok(granted) => if attached_deposit < granted * VAULT_FUNDING {
                    Err(MintError::InsufficientDeposit)
                } else {
                    Ok(granted)
                },
                Err(e) => Err(e),
            }
        }
    }

    /// Whether `num` items are more than one call may mint.
    pub open spec fn spec_rate_limited(&self, num: u16) -> bool {
        self.sale.mint_rate_limit is Some && num > self.sale.mint_rate_limit->0
    }

    /// Whether the items `account` mints in the given stage are counted
    /// against its allowance.
    pub open spec fn spec_counted(&self, status: Status, account: Seq<char>) -> bool {
        !self.spec_is_owner(account) && self.spec_has_allowance(status)
    }

    /// No account has two allowances, and no account is listed twice as
    /// admin or as signer.
    pub open spec fn wf(&self) -> bool {
        &&& self.whitelist.wf()
        &&& distinct(self.admins@)
        &&& distinct(self.signer_accounts@)
    }
}

} // verus!
