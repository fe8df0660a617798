//! The listing registry's side of an approval: whether an approved item is
//! accepted for sale, and the record and item transfer that follow.

use crate::account::{contains_text, is_listed, is_substring, listed, optional_text};
use crate::status::NANOS_PER_MILLI;
use vstd::prelude::*;

verus! {

/// What the registry adds to every asking price.
pub const INITIAL_BALANCE: u128 = 2_000_000_000_000_000_000_000_000;

/// What is attached to the call that moves the item to the registry.
pub const NFT_TRANSFER_DEPOSIT: u128 = 1;

/// An asking price in one fungible token.
#[derive(Clone, Debug)]
pub struct Price {
    pub ft_token_id: String,
    pub price: u128,
}

/// The sale terms that come with an approval. They price each token once.
#[derive(Clone, Debug)]
pub struct SaleArgs {
    pub sale_conditions: Vec<Price>,
    pub token_type: Option<String>,
    pub is_auction: Option<bool>,
}

/// A listing as the registry records it. It prices each token once and
/// starts without bids.
#[derive(Clone, Debug)]
pub struct Sale {
    pub owner_id: String,
    pub approval_id: u64,
    pub nft_contract_id: String,
    pub token_id: String,
    pub sale_conditions: Vec<Price>,
    pub created_at: u64,
    pub token_type: Option<String>,
    pub is_auction: bool,
}

/// An approval notification together with what the host reports about the
/// call that delivers it.
#[derive(Clone, Debug)]
pub struct Approval {
    /// The contract that sends the notification.
    pub nft_contract_id: String,
    /// The account that signed the transaction.
    pub signer_id: String,
    /// The registry's own account.
    pub current_account_id: String,
    /// Block time in nanoseconds.
    pub block_timestamp: u64,
    pub token_id: String,
    pub owner_id: String,
    pub approval_id: u64,
}

/// The call that moves the approved item into the registry's custody.
#[derive(Clone, Debug)]
pub struct NftTransfer {
    pub nft_contract_id: String,
    pub receiver_id: String,
    pub token_id: String,
    pub approval_id: u64,
    pub memo: String,
    pub deposit: u128,
}

/// An accepted approval: the record to store under its key, and the transfer
/// to dispatch.
#[derive(Clone, Debug)]
pub struct Listing {
    pub contract_and_token_id: String,
    pub sale: Sale,
    pub transfer: NftTransfer,
}

/// Why an approval was turned down.
#[derive(Clone, Copy, Debug, PartialEq, Eq, Structural)]
pub enum MarketError {
    /// The notifying contract is not one the registry lists items of.
    NftContractNotWhitelisted,
    /// The notification was signed by the notifying contract itself.
    NotCrossContractCall,
    /// The named owner did not sign the transaction.
    OwnerNotSigner,
    /// The message did not hold sale terms, or terms that price a token
    /// twice.
    InvalidSaleArgs,
    /// The asking price at this position names a token the registry does not
    /// support.
    TokenNotSupported { index: usize },
    /// The asking price at this position is too high to add the registry's
    /// balance to.
    PriceOverflow { index: usize },
    /// The token type does not occur in the item's identifier.
    TokenTypeNotInTokenId,
}

impl MarketError {
    /// What to tell the caller about an approval that came with the asking
    /// prices `asked`. A token that is not supported is named.
    pub open spec fn spec_message(&self, asked: Seq<Price>) -> Seq<char> {
        match self {
            MarketError::NftContractNotWhitelisted => "nft_contract_id is not whitelisted"@,
            MarketError::NotCrossContractCall => "nft_on_approve should only be called via cross-contract call"@,
            MarketError::OwnerNotSigner => "owner_id should be signer_id"@,
            MarketError::InvalidSaleArgs => "Not valid SaleArgs"@,
            MarketError::TokenNotSupported { index } => if *index < asked.len() {
                "Token "@ + asked[*index as int].ft_token_id@ + " not supported by this market"@
            } else {
                "Token not supported by this market"@
            },
            MarketError::PriceOverflow { .. } => "Price is too high"@,
            MarketError::TokenTypeNotInTokenId => "TokenType should be substr of TokenId"@,
        }
    }

    /// What to tell the caller about an approval that came with the asking
    /// prices `asked`.
    pub fn message(&self, asked: &Vec<Price>) -> (text: String)
        ensures
            text@ == self.spec_message(asked@),
    {
        match self {
            MarketError::NftContractNotWhitelisted => "nft_contract_id is not whitelisted".to_owned(),
            MarketError::NotCrossContractCall => "nft_on_approve should only be called via cross-contract call".to_owned(),
            MarketError::OwnerNotSigner => "owner_id should be signer_id".to_owned(),
            MarketError::InvalidSaleArgs => "Not valid SaleArgs".to_owned(),
            MarketError::TokenNotSupported { index } => {
                if *index < asked.len() {
                    let mut text = "Token ".to_owned();
                    text.append(asked[*index].ft_token_id.as_str());
                    text.append(" not supported by this market");
                    text
                } else {
                    "Token not supported by this market".to_owned()
                }
            },
            MarketError::PriceOverflow { .. } => "Price is too high".to_owned(),
            MarketError::TokenTypeNotInTokenId => "TokenType should be substr of TokenId".to_owned(),
        }
    }
}

/// The one contract whose items the registry lists.
pub open spec fn whitelisted_nft_contract() -> Seq<char> {
    "dev-1695922751973-50100434093733"@
}

/// What separates the contract from the item in a listing's key.
pub open spec fn delimiter() -> Seq<char> {
    seq!['|', '|']
}

/// The memo of the transfer into custody.
pub open spec fn transfer_memo() -> Seq<char> {
    "deposit to market"@
}

/// The key under which the listing of `token_id` of `nft_contract_id` is
/// stored.
pub open spec fn listing_key(nft_contract_id: Seq<char>, token_id: Seq<char>) -> Seq<char> {
    nft_contract_id + delimiter() + token_id
}

/// No token is priced twice.
pub open spec fn distinct_tokens(prices: Seq<Price>) -> bool {
    forall|i: int, j: int|
        0 <= i < j < prices.len() ==> (#[trigger] prices[i]).ft_token_id@
            != (#[trigger] prices[j]).ft_token_id@
}

impl SaleArgs {
    /// The terms price each token once.
    pub open spec fn wf(&self) -> bool {
        distinct_tokens(self.sale_conditions@)
    }
}

impl Sale {
    /// The listing prices each token once.
    pub open spec fn wf(&self) -> bool {
        distinct_tokens(self.sale_conditions@)
    }
}

/// Whether no token is priced twice.
pub fn has_distinct_tokens(prices: &Vec<Price>) -> (ok: bool)
    ensures
        ok == distinct_tokens(prices@),
{
    let mut j: usize = 0;
    while j < prices.len()
        invariant
            j <= prices@.len(),
            forall|a: int, b: int|
                0 <= a < b < j ==> (#[trigger] prices@[a]).ft_token_id@ != (#[trigger] prices@[b]).ft_token_id@,
        decreases prices@.len() - j,
    {
        let mut i: usize = 0;
        while i < j
            invariant
                i <= j < prices@.len(),
                forall|a: int| 0 <= a < i ==> (#[trigger] prices@[a]).ft_token_id@ != prices@[j as int].ft_token_id@,
            decreases j - i,
        {
            if prices[i].ft_token_id == prices[j].ft_token_id {
                return false;
            }
            i = i + 1;
        }
        j = j + 1;
    }
    true
}

/// The asking price cannot be listed: its token is not supported, or the
/// registry's balance cannot be added to it.
pub open spec fn price_rejected(price: Price, supported: Seq<String>) -> bool {
    !listed(supported, price.ft_token_id@) || price.price + INITIAL_BALANCE > u128::MAX
}

/// Position `i` holds the first asking price that cannot be listed.
pub open spec fn is_first_rejected(prices: Seq<Price>, supported: Seq<String>, i: int) -> bool {
    &&& 0 <= i < prices.len()
    &&& price_rejected(prices[i], supported)
    &&& forall|j: int| 0 <= j < i ==> !price_rejected(#[trigger] prices[j], supported)
}

/// The first reason, in the order of the checks, for which the approval is
/// turned down, if there is one.
pub open spec fn approval_fault(
    call: Approval,
    args: Option<SaleArgs>,
    supported: Seq<String>,
) -> Option<MarketError> {
    if call.nft_contract_id@ != whitelisted_nft_contract() {
        Some(MarketError::NftContractNotWhitelisted)
    } else if call.nft_contract_id@ == call.signer_id@ {
        Some(MarketError::NotCrossContractCall)
    } else if call.owner_id@ != call.signer_id@ {
        Some(MarketError::OwnerNotSigner)
    } else if args is None || !args->0.wf() {
        Some(MarketError::InvalidSaleArgs)
    } else {
        let prices = args->0.sale_conditions@;
        if exists|i: int| is_first_rejected(prices, supported, i) {
            let i = choose|i: int| is_first_rejected(prices, supported, i);
            if !listed(supported, prices[i].ft_token_id@) {
                Some(MarketError::TokenNotSupported { index: i as usize })
            } else {
                Some(MarketError::PriceOverflow { index: i as usize })
            }
        } else if args->0.token_type is Some && !is_substring(
            args->0.token_type->0@,
            call.token_id@,
        ) {
            Some(MarketError::TokenTypeNotInTokenId)
        } else {
            None
        }
    }
}

/// `listed_prices` are the asking prices `asked`, each raised by the
/// registry's balance.
pub open spec fn prices_raised(listed_prices: Seq<Price>, asked: Seq<Price>) -> bool {
    &&& listed_prices.len() == asked.len()
    &&& forall|i: int|
        0 <= i < asked.len() ==> (#[trigger] listed_prices[i]).ft_token_id@ == asked[i].ft_token_id@
            && listed_prices[i].price == asked[i].price + INITIAL_BALANCE
}

/// `listing` is what the accepted approval `call` with the terms `args`
/// leads to.
pub open spec fn listing_matches(listing: Listing, call: Approval, args: SaleArgs) -> bool {
    &&& listing.contract_and_token_id@ == listing_key(call.nft_contract_id@, call.token_id@)
    &&& listing.sale.owner_id@ == call.owner_id@
    &&& listing.sale.approval_id == call.approval_id
    &&& listing.sale.nft_contract_id@ == call.nft_contract_id@
    &&& listing.sale.token_id@ == call.token_id@
    &&& prices_raised(listing.sale.sale_conditions@, args.sale_conditions@)
    &&& listing.sale.wf()
    &&& listing.sale.created_at == call.block_timestamp / NANOS_PER_MILLI
    &&& optional_text(listing.sale.token_type) == optional_text(args.token_type)
    &&& listing.sale.is_auction == (args.is_auction == Some(true))
    &&& listing.transfer.nft_contract_id@ == call.nft_contract_id@
    &&& listing.transfer.receiver_id@ == call.current_account_id@
    &&& listing.transfer.token_id@ == call.token_id@
    &&& listing.transfer.approval_id == call.approval_id
    &&& listing.transfer.memo@ == transfer_memo()
    &&& listing.transfer.deposit == NFT_TRANSFER_DEPOSIT
}

/// Raises every asking price by the registry's balance, or reports the first
/// one that cannot be listed.
fn raise_prices(asked: &Vec<Price>, supported: &Vec<String>) -> (outcome: Result<
    Vec<Price>,
    MarketError,
>)
    ensures
        match outcome {
            Ok(raised) => prices_raised(raised@, asked@) && !exists|i: int|
                is_first_rejected(asked@, supported@, i),
            Err(e) => exists|i: int| is_first_rejected(asked@, supported@, i) && e == (if !listed(
                supported@,
                asked@[i].ft_token_id@,
            ) {
                MarketError::TokenNotSupported { index: i as usize }
            } else {
                MarketError::PriceOverflow { index: i as usize }
            }),
        },
{
    let mut raised: Vec<Price> = Vec::new();
    let mut i: usize = 0;
    while i < asked.len()
        invariant
            i <= asked@.len(),
            raised@.len() == i,
            forall|j: int| 0 <= j < i ==> !price_rejected(#[trigger] asked@[j], supported@),
            forall|j: int|
                0 <= j < i ==> (#[trigger] raised@[j]).ft_token_id@ == asked@[j].ft_token_id@
                    && raised@[j].price == asked@[j].price + INITIAL_BALANCE,
        decreases asked@.len() - i,
    {
        if !is_listed(supported, &asked[i].ft_token_id) {
            assert(is_first_rejected(asked@, supported@, i as int));
            return Err(MarketError::TokenNotSupported { index: i });
        }
        if asked[i].price > u128::MAX - INITIAL_BALANCE {
            assert(is_first_rejected(asked@, supported@, i as int));
            return Err(MarketError::PriceOverflow { index: i });
        }
        raised.push(Price { ft_token_id: asked[i].ft_token_id.clone(), price: asked[i].price + INITIAL_BALANCE });
        i = i + 1;
    }
    Ok(raised)
}

/// If one position holds the first rejected price, no other does.
proof fn lemma_first_rejected_is_unique(prices: Seq<Price>, supported: Seq<String>, i: int, j: int)
    requires
        is_first_rejected(prices, supported, i),
        is_first_rejected(prices, supported, j),
    ensures
        i == j,
{
    if i < j {
        assert(!price_rejected(prices[i], supported));
    }
    if j < i {
        assert(!price_rejected(prices[j], supported));
    }
}

/// Decides on an approval notification. `args` is what the message held, or
/// `None` if it did not hold sale terms; `ft_token_ids` are the tokens the
/// registry supports.
///
/// The checks run in a fixed order and the first one that fails names the
/// error: the notifying contract must be the listed one, must not be the
/// signer, the owner must be the signer, the terms must be there and price
/// no token twice, every asking price must be in a supported token and leave room for the
/// registry's balance, and a token type must occur in the item's identifier.
pub fn nft_on_approve(call: &Approval, args: Option<SaleArgs>, ft_token_ids: &Vec<String>) -> (outcome:
    Result<Listing, MarketError>)
    ensures
        match outcome {
            Ok(listing) => approval_fault(*call, args, ft_token_ids@) is None && listing_matches(
                listing,
                *call,
                args->0,
            ),
            Err(e) => approval_fault(*call, args, ft_token_ids@) == Some(e),
        },
{
    let whitelisted = "dev-1695922751973-50100434093733".to_owned();
    if call.nft_contract_id != whitelisted {
        return Err(MarketError::NftContractNotWhitelisted);
    }
    if call.nft_contract_id == call.signer_id {
        return Err(MarketError::NotCrossContractCall);
    }
    if call.owner_id != call.signer_id {
        return Err(MarketError::OwnerNotSigner);
    }
    let terms = match args {
        Some(terms) => terms,
        None => {
            return Err(MarketError::InvalidSaleArgs);
        },
    };
    if !has_distinct_tokens(&terms.sale_conditions) {
        return Err(MarketError::InvalidSaleArgs);
    }
    let sale_conditions = match raise_prices(&terms.sale_conditions, ft_token_ids) {
        Ok(raised) => raised,
        Err(e) => {
            proof {
                let i = choose|i: int|
                    is_first_rejected(terms.sale_conditions@, ft_token_ids@, i) && e == (if !listed(
                        ft_token_ids@,
                        terms.sale_conditions@[i].ft_token_id@,
                    ) {
                        MarketError::TokenNotSupported { index: i as usize }
                    } else {
                        MarketError::PriceOverflow { index: i as usize }
                    });
                let k = choose|k: int| is_first_rejected(terms.sale_conditions@, ft_token_ids@, k);
                lemma_first_rejected_is_unique(terms.sale_conditions@, ft_token_ids@, i, k);
            }
            return Err(e);
        },
    };
    match &terms.token_type {
        Some(token_type) => {
            if !contains_text(&call.token_id, token_type) {
                return Err(MarketError::TokenTypeNotInTokenId);
            }
        },
        None => {},
    }
    proof {
        reveal_strlit("||");
    }
    let mut contract_and_token_id = call.nft_contract_id.clone();
    contract_and_token_id.append("||");
    contract_and_token_id.append(call.token_id.as_str());
    assert(contract_and_token_id@ =~= listing_key(call.nft_contract_id@, call.token_id@)) by {
        assert("||"@ =~= delimiter());
    }
    let is_auction = match terms.is_auction {
        Some(flag) => flag,
        None => false,
    };
    let sale = Sale {
        owner_id: call.owner_id.clone(),
        approval_id: call.approval_id,
        nft_contract_id: call.nft_contract_id.clone(),
        token_id: call.token_id.clone(),
        sale_conditions,
        created_at: call.block_timestamp / NANOS_PER_MILLI,
        token_type: terms.token_type,
        is_auction,
    };
    let transfer = NftTransfer {
        nft_contract_id: call.nft_contract_id.clone(),
        receiver_id: call.current_account_id.clone(),
        token_id: call.token_id.clone(),
        approval_id: call.approval_id,
        memo: "deposit to market".to_owned(),
        deposit: NFT_TRANSFER_DEPOSIT,
    };
    Ok(Listing { contract_and_token_id, sale, transfer })
}

} // verus!
