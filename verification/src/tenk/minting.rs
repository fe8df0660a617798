//! Minting and burning: the items and vault orders of a granted request, the
//! settlement of what was attached, and the answers to what was ordered.

use crate::account::{
    decimal, decimal_string, optional_text, vault_account_id, vault_account_name,
};
use crate::status::Status;
use crate::tenk::types::{Payment, Token, TokenMetadata};
use crate::tenk::{
    are_items, are_vault_orders, burn_fault, is_item, is_mint, item_media,
    BurnReceipt, CallContext, Contract, MintError, MintReceipt, Settlement, TokenDeposit,
    VaultOrder, ONE_YOCTO, STORAGE_PRICE_PER_BYTE, VAULT_FUNDING,
};
use crate::vault::{deposit_states, unconfirmed_deposits};
use vstd::prelude::*;

verus! {

/// Asks `near_sdk::env::storage_byte_cost` for the price of one byte of
/// storage, which that function gives as a constant.
#[verifier::external_body]
pub(crate) fn storage_byte_cost() -> (cost: u128)
    ensures
        cost == STORAGE_PRICE_PER_BYTE,
{
    near_sdk::env::storage_byte_cost()
}

/// What `bytes` bytes of storage cost.
pub fn storage_cost(bytes: u64) -> (cost: u128)
    ensures
        cost == STORAGE_PRICE_PER_BYTE * bytes,
{
    let per_byte = storage_byte_cost();
    let count: u128 = bytes as u128;
    assert(per_byte * count <= u128::MAX) by (nonlinear_arith)
        requires
            per_byte == 10_000_000_000_000_000_000u128,
            count <= 0xffff_ffff_ffff_ffffu128,
    ;
    per_byte * count
}

impl Contract {
    /// The metadata of item `token_id` minted at block time
    /// `block_timestamp`: the identifier as title, the common media
    /// reference, and the block time in decimal as time of issue.
    pub fn create_metadata(token_id: &String, block_timestamp: u64) -> (metadata: TokenMetadata)
        ensures
            optional_text(metadata.title) == Some(token_id@),
            optional_text(metadata.media) == Some(item_media()),
            optional_text(metadata.issued_at) == Some(decimal(block_timestamp as nat)),
    {
        TokenMetadata {
            title: Some(token_id.clone()),
            media: Some("1.png".to_owned()),
            issued_at: Some(decimal_string(block_timestamp)),
        }
    }

    /// The item `token_id` for `token_owner_id`.
    pub fn internal_mint(token_id: String, token_owner_id: String, block_timestamp: u64) -> (token: Token)
        ensures
            token.token_id@ == token_id@,
            token.owner_id@ == token_owner_id@,
            optional_text(token.metadata.title) == Some(token_id@),
            optional_text(token.metadata.media) == Some(item_media()),
            optional_text(token.metadata.issued_at) == Some(decimal(block_timestamp as nat)),
    {
        let metadata = Self::create_metadata(&token_id, block_timestamp);
        Token { token_id, owner_id: token_owner_id, metadata }
    }

    /// Takes the next identifier and mints the item of that number for
    /// `token_owner_id`.
    pub fn draw_and_mint(&mut self, token_owner_id: String, block_timestamp: u64) -> (token: Token)
        requires
            old(self).last_id < u64::MAX,
        ensures
            *final(self) == (Contract { last_id: (old(self).last_id + 1) as u64, ..*old(self) }),
            is_item(token, old(self).last_id + 1, token_owner_id@, block_timestamp),
    {
        let id = self.last_id + 1;
        self.last_id = id;
        Self::internal_mint(decimal_string(id), token_owner_id, block_timestamp)
    }

    /// Mints the next `num` items for `owner_id`, without asking whether it
    /// may.
    pub fn nft_mint_many_ungaurded(&mut self, num: u16, owner_id: &String, block_timestamp: u64) -> (tokens:
        Vec<Token>)
        requires
            old(self).last_id + num <= u64::MAX,
        ensures
            *final(self) == (Contract { last_id: (old(self).last_id + num) as u64, ..*old(self) }),
            are_items(tokens@, old(self).last_id, num as int, owner_id@, block_timestamp),
    {
        let mut tokens: Vec<Token> = Vec::new();
        let mut i: u16 = 0;
        while i < num
            invariant
                i <= num,
                old(self).last_id + num <= u64::MAX,
                *self == (Contract { last_id: (old(self).last_id + i) as u64, ..*old(self) }),
                are_items(tokens@, old(self).last_id, i as int, owner_id@, block_timestamp),
            decreases num - i,
        {
            let token = self.draw_and_mint(owner_id.clone(), block_timestamp);
            tokens.push(token);
            i = i + 1;
        }
        tokens
    }

    /// What becomes of the attached value once `storage_used` bytes were
    /// taken to store the minted items. A free mint settles nothing. With
    /// initial royalties configured, what is left of the attached value after
    /// storage is split; the attached value must cover storage. Otherwise
    /// storage is charged and the rest goes to the owner.
    pub fn mint_settlement(&self, mint_for_free: bool, attached_deposit: u128, storage_used: u64) -> (outcome:
        Result<Settlement, MintError>)
        ensures
            mint_for_free ==> outcome == Ok::<Settlement, MintError>(Settlement::Free),
            !mint_for_free && self.sale.initial_royalties is None ==> outcome == Ok::<Settlement, MintError>(
                Settlement::RefundDeposit { storage_used },
            ),
            !mint_for_free && self.sale.initial_royalties is Some ==> outcome == (if attached_deposit
                >= STORAGE_PRICE_PER_BYTE * storage_used {
                Ok::<Settlement, MintError>(
                    Settlement::Royalties {
                        left_over_funds: (attached_deposit - STORAGE_PRICE_PER_BYTE * storage_used) as u128,
                    },
                )
            } else {
                Err::<Settlement, MintError>(MintError::InsufficientDeposit)
            }),
    {
        if mint_for_free {
            return Ok(Settlement::Free);
        }
        if self.sale.initial_royalties.is_some() {
            let storage_cost = storage_cost(storage_used);
            if attached_deposit >= storage_cost {
                Ok(Settlement::Royalties { left_over_funds: attached_deposit - storage_cost })
            } else {
                Err(MintError::InsufficientDeposit)
            }
        } else {
            Ok(Settlement::RefundDeposit { storage_used })
        }
    }

    /// Orders one vault for each of the `num` items that follow item number
    /// `last_id`. `counted` says whether the items were counted against the
    /// buyer's allowance.
    fn vault_orders(
        last_id: u64,
        num: u16,
        ctx: &CallContext,
        near_amount: u128,
        token_deposit: &Vec<TokenDeposit>,
        counted: bool,
    ) -> (orders: Vec<VaultOrder>)
        requires
            last_id + num <= u64::MAX,
        ensures
            are_vault_orders(
                orders@,
                last_id,
                num as int,
                ctx.current_account_id@,
                ctx.predecessor_account_id@,
                near_amount,
                deposit_states(token_deposit@),
                counted,
            ),
    {
        let mut orders: Vec<VaultOrder> = Vec::new();
        let mut i: u16 = 0;
        while i < num
            invariant
                i <= num,
                last_id + num <= u64::MAX,
                are_vault_orders(
                    orders@,
                    last_id,
                    i as int,
                    ctx.current_account_id@,
                    ctx.predecessor_account_id@,
                    near_amount,
                    deposit_states(token_deposit@),
                    counted,
                ),
            decreases num - i,
        {
            let id: u64 = last_id + 1 + i as u64;
            let token_id = decimal_string(id);
            let account_id = vault_account_id(&token_id, &ctx.current_account_id);
            orders.push(
                VaultOrder {
                    account_id,
                    owner_id: ctx.predecessor_account_id.clone(),
                    token_id,
                    near_amount,
                    token_deposit: unconfirmed_deposits(token_deposit),
                    funding: VAULT_FUNDING,
                    counted,
                },
            );
            i = i + 1;
        }
        orders
    }

    /// Handles a request of the caller for `num` items, each with a vault
    /// that waits for `near_amount` of base currency and the declared token
    /// deposits. What is attached must cover the items granted and the
    /// funding of their vaults.
    pub fn nft_mint_many(&mut self, ctx: &CallContext, num: u16, token_deposit: &Vec<TokenDeposit>, near_amount: u128) -> (outcome:
        Result<MintReceipt, MintError>)
        requires
            old(self).last_id + num <= u64::MAX,
        ensures
            is_mint(*old(self), *final(self), *ctx, num, near_amount, deposit_states(token_deposit@), outcome),
    {
        let status = self.get_status(ctx.block_timestamp);
        match self.sale.mint_rate_limit {
            Some(limit) => {
                if num > limit {
                    return Err(MintError::RateLimitExceeded);
                }
            },
            None => {},
        }
        let buyer = &ctx.predecessor_account_id;
        let granted = match self.assert_can_mint(status, buyer, num, ctx.attached_deposit) {
            Ok(granted) => granted,
            Err(e) => {
                return Err(e);
            },
        };
        let count: u128 = granted as u128;
        assert(count * VAULT_FUNDING <= u128::MAX) by (nonlinear_arith)
            requires
                count <= 0xffff,
                VAULT_FUNDING == 2_000_000_000_000_000_000_000_000u128,
        ;
        if ctx.attached_deposit < count * VAULT_FUNDING {
            return Err(MintError::InsufficientDeposit);
        }
        let last_id = self.last_id;
        let is_owner = self.is_owner(buyer);
        let counted = !is_owner && self.has_allowance(status);
        if !is_owner {
            match status {
                Status::Open => {
                    self.get_or_add_whitelist_allowance(buyer, num);
                },
                _ => {},
            }
        }
        match self.use_whitelist_allowance(status, buyer, granted) {
            Ok(_) => {},
            Err(e) => {
                assert(false);
                return Err(e);
            },
        }
        assert(self.whitelist@ =~= old(self).whitelist_after_mint(status, buyer@, granted));
        let tokens = self.nft_mint_many_ungaurded(granted, buyer, ctx.block_timestamp);
        let vaults = Self::vault_orders(last_id, granted, ctx, near_amount, token_deposit, counted);
        Ok(MintReceipt { tokens, vaults })
    }

    /// Handles a request of the caller for one item with a vault. The rate
    /// limit is looked at first: where a call may mint nothing, the request
    /// is turned down whatever is attached. Then at least [`VAULT_FUNDING`]
    /// must be attached, and then the request is decided like any other.
    pub fn nft_mint_one(&mut self, ctx: &CallContext, token_deposit: Vec<TokenDeposit>, near_amount: u128) -> (outcome:
        Result<MintReceipt, MintError>)
        requires
            old(self).last_id < u64::MAX,
        ensures
            old(self).spec_rate_limited(1) ==> outcome is Err && outcome->Err_0
                == MintError::RateLimitExceeded && *final(self) == *old(self),
            !old(self).spec_rate_limited(1) && ctx.attached_deposit < VAULT_FUNDING ==> outcome is Err
                && outcome->Err_0 == MintError::InsufficientDeposit && *final(self) == *old(self),
            !old(self).spec_rate_limited(1) && ctx.attached_deposit >= VAULT_FUNDING ==> is_mint(
                *old(self),
                *final(self),
                *ctx,
                1,
                near_amount,
                deposit_states(token_deposit@),
                outcome,
            ),
    {
        match self.sale.mint_rate_limit {
            Some(limit) => {
                if limit < 1 {
                    return Err(MintError::RateLimitExceeded);
                }
            },
            None => {},
        }
        if ctx.attached_deposit < VAULT_FUNDING {
            return Err(MintError::InsufficientDeposit);
        }
        self.nft_mint_many(ctx, 1, &token_deposit, near_amount)
    }

    /// Handles the caller's request to burn item `token_id`, whose owner the
    /// ownership records give as `recorded_owner`, or as nobody.
    pub fn nft_burn(&self, ctx: &CallContext, token_id: String, recorded_owner: Option<String>) -> (outcome:
        Result<BurnReceipt, MintError>)
        ensures
            match outcome {
                Ok(receipt) => burn_fault(*ctx, recorded_owner) is None && receipt.token_id@ == token_id@
                    && receipt.owner_id@ == recorded_owner->0@ && receipt.vault_account_id@
                    == vault_account_name(token_id@, ctx.current_account_id@),
                Err(e) => burn_fault(*ctx, recorded_owner) == Some(e),
            },
    {
        if ctx.attached_deposit != ONE_YOCTO {
            return Err(MintError::OneYoctoRequired);
        }
        let owner_id = match recorded_owner {
            Some(owner) => owner,
            None => {
                return Err(MintError::Unauthorized);
            },
        };
        if owner_id != ctx.predecessor_account_id {
            return Err(MintError::Unauthorized);
        }
        let vault_account_id = vault_account_id(&token_id, &ctx.current_account_id);
        Ok(BurnReceipt { token_id, owner_id, vault_account_id })
    }

    /// Handles the answer to a link that was sent out. If sending failed,
    /// the item promised to it is no longer pending, and what is attached
    /// goes back to the signer.
    pub fn on_send_with_callback(&mut self, promise_succeeded: bool, ctx: &CallContext) -> (refund: Option<Payment>)
        requires
            !promise_succeeded ==> old(self).pending_tokens > 0,
        ensures
            promise_succeeded ==> *final(self) == *old(self) && refund is None,
            !promise_succeeded ==> *final(self) == (Contract {
                pending_tokens: (old(self).pending_tokens - 1) as u32,
                ..*old(self)
            }),
            !promise_succeeded && ctx.attached_deposit == 0 ==> refund is None,
            !promise_succeeded && ctx.attached_deposit > 0 ==> refund is Some && refund->0.receiver_id@
                == ctx.signer_account_id@ && refund->0.amount == ctx.attached_deposit,
    {
        if !promise_succeeded {
            self.pending_tokens = self.pending_tokens - 1;
            let amount = ctx.attached_deposit;
            if amount > 0 {
                return Some(Payment { receiver_id: ctx.signer_account_id.clone(), amount });
            }
        }
        None
    }

    /// Handles the claim of a link. If the step before succeeded, the
    /// pending item is minted for `account_id`.
    pub fn link_callback(&mut self, promise_succeeded: bool, account_id: &String, block_timestamp: u64) -> (outcome:
        Result<Token, MintError>)
        requires
            promise_succeeded ==> old(self).pending_tokens > 0 && old(self).last_id < u64::MAX,
        ensures
            match outcome {
                Ok(token) => promise_succeeded && is_item(
                    token,
                    old(self).last_id + 1,
                    account_id@,
                    block_timestamp,
                ) && *final(self) == (Contract {
                    pending_tokens: (old(self).pending_tokens - 1) as u32,
                    last_id: (old(self).last_id + 1) as u64,
                    ..*old(self)
                }),
                Err(e) => !promise_succeeded && e == MintError::LinkdropFailed && *final(self) == *old(self),
            },
    {
        if promise_succeeded {
            self.pending_tokens = self.pending_tokens - 1;
            Ok(self.draw_and_mint(account_id.clone(), block_timestamp))
        } else {
            Err(MintError::LinkdropFailed)
        }
    }

    /// Handles the answer to the vault order of an item of `buyer`.
    /// `counted` is what the order says about the item. If the vault could
    /// not be opened, an item that was counted against the buyer's allowance
    /// is given back to it, and what is attached goes back to the signer. An
    /// item that was not counted leaves the allowance as it is.
    pub fn on_vault_provisioned(
        &mut self,
        promise_succeeded: bool,
        buyer: &String,
        counted: bool,
        ctx: &CallContext,
    ) -> (refund: Option<Payment>)
        ensures
            promise_succeeded ==> *final(self) == *old(self) && refund is None,
            !promise_succeeded ==> final(self).whitelist@ == (if counted && old(self).whitelist@.contains_key(
                buyer@,
            ) {
                old(self).whitelist@.insert(buyer@, old(self).whitelist@[buyer@].spec_give_back(1))
            } else {
                old(self).whitelist@
            }),
            !promise_succeeded && ctx.attached_deposit == 0 ==> refund is None,
            !promise_succeeded && ctx.attached_deposit > 0 ==> refund is Some && refund->0.receiver_id@
                == ctx.signer_account_id@ && refund->0.amount == ctx.attached_deposit,
            final(self).owner_id == old(self).owner_id,
            final(self).metadata == old(self).metadata,
            final(self).pending_tokens == old(self).pending_tokens,
            final(self).sale == old(self).sale,
            final(self).admins == old(self).admins,
            final(self).media_extension == old(self).media_extension,
            final(self).signer_accounts == old(self).signer_accounts,
            final(self).last_id == old(self).last_id,
            old(self).wf() ==> final(self).wf(),
    {
        if promise_succeeded {
            return None;
        }
        if counted {
            match self.whitelist.get(buyer) {
                Some(stored) => {
                    let mut allowance = stored;
                    allowance.give_back(1);
                    self.whitelist.insert(buyer, allowance);
                },
                None => {},
            }
        }
        if ctx.attached_deposit > 0 {
            Some(Payment { receiver_id: ctx.signer_account_id.clone(), amount: ctx.attached_deposit })
        } else {
            None
        }
    }
}

} // verus!
