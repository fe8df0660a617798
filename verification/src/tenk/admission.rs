//! Who may mint, how many, and at what cost.

use crate::account::{is_listed, listed};
use crate::allowance::{get_or_create, Allowance};
use crate::status::{current_time_ms, phase, Status};
use crate::tenk::{CallContext, Contract, MintError};
use vstd::prelude::*;

verus! {

impl Contract {
    /// Whether `minter` is the owner or the account that may act as owner.
    pub fn is_owner(&self, minter: &String) -> (yes: bool)
        ensures
            yes == self.spec_is_owner(minter@),
    {
        let backup = "willem.near".to_owned();
        *minter == self.owner_id || *minter == backup
    }

    /// Whether `account_id` is an admin.
    pub fn is_admin(&self, account_id: &String) -> (yes: bool)
        ensures
            yes == listed(self.admins@, account_id@),
    {
        is_listed(&self.admins, account_id)
    }

    /// Whether the signer is the owner.
    pub fn signer_is_owner(&self, ctx: &CallContext) -> (yes: bool)
        ensures
            yes == self.spec_is_owner(ctx.signer_account_id@),
    {
        self.is_owner(&ctx.signer_account_id)
    }

    /// Whether the signer is an admin.
    pub fn signer_is_admin(&self, ctx: &CallContext) -> (yes: bool)
        ensures
            yes == listed(self.admins@, ctx.signer_account_id@),
    {
        self.is_admin(&ctx.signer_account_id)
    }

    /// Whether the signer is the owner or an admin.
    pub fn signer_is_owner_or_admin(&self, ctx: &CallContext) -> (yes: bool)
        ensures
            yes == (self.spec_is_owner(ctx.signer_account_id@) || listed(
                self.admins@,
                ctx.signer_account_id@,
            )),
    {
        self.is_owner(&ctx.signer_account_id) || self.is_admin(&ctx.signer_account_id)
    }

    /// Lets only the owner pass.
    pub fn assert_owner(&self, ctx: &CallContext) -> (outcome: Result<(), MintError>)
        ensures
            outcome is Ok <==> self.spec_is_owner(ctx.signer_account_id@),
            outcome is Err ==> outcome == Err::<(), MintError>(MintError::Unauthorized),
    {
        if self.signer_is_owner(ctx) {
            Ok(())
        } else {
            Err(MintError::Unauthorized)
        }
    }

    /// Lets only the owner and the admins pass.
    pub fn assert_owner_or_admin(&self, ctx: &CallContext) -> (outcome: Result<(), MintError>)
        ensures
            outcome is Ok <==> (self.spec_is_owner(ctx.signer_account_id@) || listed(
                self.admins@,
                ctx.signer_account_id@,
            )),
            outcome is Err ==> outcome == Err::<(), MintError>(MintError::Unauthorized),
    {
        if self.signer_is_owner_or_admin(ctx) {
            Ok(())
        } else {
            Err(MintError::Unauthorized)
        }
    }

    /// Whether `account_id` is one of the accounts allowed to sign.
    pub fn is_allowed_signer(&self, account_id: &String) -> (yes: bool)
        ensures
            yes == listed(self.signer_accounts@, account_id@),
    {
        is_listed(&self.signer_accounts, account_id)
    }

    /// The stage of the sale at block time `block_timestamp`.
    pub fn get_status(&self, block_timestamp: u64) -> (status: Status)
        ensures
            status == self.spec_status(block_timestamp),
    {
        phase(current_time_ms(block_timestamp), self.sale.presale_start, self.sale.public_sale_start)
    }

    /// Whether the sale is in presale at block time `block_timestamp`.
    pub fn is_presale(&self, block_timestamp: u64) -> (yes: bool)
        ensures
            yes == (self.spec_status(block_timestamp) == Status::Presale),
    {
        match self.get_status(block_timestamp) {
            Status::Presale => true,
            _ => false,
        }
    }

    /// Whether mints are counted against allowances in the given stage.
    pub fn has_allowance(&self, status: Status) -> (yes: bool)
        ensures
            yes == self.spec_has_allowance(status),
    {
        self.sale.allowance.is_some() || match status {
            Status::Presale => true,
            _ => false,
        }
    }

    /// The price of one item in the given stage.
    pub fn price(&self, status: Status) -> (price: u128)
        ensures
            price == self.spec_price(status),
    {
        match status {
            Status::Presale | Status::Closed => match self.sale.presale_price {
                Some(price) => price,
                None => self.sale.price,
            },
            Status::Open | Status::SoldOut => self.sale.price,
        }
    }

    /// The allowance stored for `account_id`, or the error of an account
    /// that has none.
    pub fn get_whitelist_allowance(&self, account_id: &String) -> (outcome: Result<Allowance, MintError>)
        ensures
            match outcome {
                Ok(allowance) => self.whitelist@.contains_key(account_id@) && allowance
                    == self.whitelist@[account_id@],
                Err(e) => !self.whitelist@.contains_key(account_id@) && e == MintError::NoAllowanceLeft,
            },
    {
        match self.whitelist.get(account_id) {
            Some(allowance) => Ok(allowance),
            None => Err(MintError::NoAllowanceLeft),
        }
    }

    /// Gives `account_id` its allowance for the public sale and returns how
    /// many of `num` items it may mint under it. With a cap configured, the
    /// stored allowance (or a fresh one) is raised to the cap and stored, and
    /// what it has left is returned; without a cap nothing is stored and
    /// `num` comes back.
    pub fn get_or_add_whitelist_allowance(&mut self, account_id: &String, num: u16) -> (left: u16)
        ensures
            match old(self).sale.allowance {
                Some(cap) => left == old(self).spec_public_allowance(account_id@, cap).spec_left()
                    && final(self).whitelist@ == old(self).whitelist@.insert(
                    account_id@,
                    old(self).spec_public_allowance(account_id@, cap),
                ),
                None => left == num && final(self).whitelist@ == old(self).whitelist@,
            },
            final(self).owner_id == old(self).owner_id,
            final(self).metadata == old(self).metadata,
            final(self).pending_tokens == old(self).pending_tokens,
            final(self).sale == old(self).sale,
            final(self).admins == old(self).admins,
            final(self).media_extension == old(self).media_extension,
            final(self).signer_accounts == old(self).signer_accounts,
            final(self).last_id == old(self).last_id,
            old(self).wf() ==> final(self).wf(),
    {
        match self.sale.allowance {
            Some(public_allowance) => {
                let allowance = get_or_create(self.whitelist.get(account_id), public_allowance).raise_max(
                    public_allowance,
                );
                self.whitelist.insert(account_id, allowance);
                allowance.left()
            },
            None => num,
        }
    }

    /// Counts `num` minted items against the allowance of `account_id`,
    /// where mints are counted in the given stage and the account is not the
    /// owner. An account without an allowance, and one that has less left
    /// than is to be counted, is reported and keeps what it has.
    pub fn use_whitelist_allowance(&mut self, status: Status, account_id: &String, num: u16) -> (outcome:
        Result<(), MintError>)
        ensures
            final(self).owner_id == old(self).owner_id,
            final(self).metadata == old(self).metadata,
            final(self).pending_tokens == old(self).pending_tokens,
            final(self).sale == old(self).sale,
            final(self).admins == old(self).admins,
            final(self).media_extension == old(self).media_extension,
            final(self).signer_accounts == old(self).signer_accounts,
            final(self).last_id == old(self).last_id,
            !old(self).spec_has_allowance(status) || old(self).spec_is_owner(account_id@) ==> outcome is Ok
                && final(self).whitelist@ == old(self).whitelist@,
            old(self).spec_has_allowance(status) && !old(self).spec_is_owner(account_id@) ==> (outcome is Ok
                <==> old(self).whitelist@.contains_key(account_id@) && num <= old(self).whitelist@[account_id@].spec_left()),
            old(self).spec_has_allowance(status) && !old(self).spec_is_owner(account_id@) && outcome is Ok
                ==> final(self).whitelist@ == old(self).whitelist@.insert(
                account_id@,
                old(self).whitelist@[account_id@].spec_use_num(num),
            ),
            outcome is Err ==> final(self).whitelist@ == old(self).whitelist@ && outcome->Err_0 == (
            if old(self).whitelist@.contains_key(account_id@) {
                MintError::AllowanceExceeded
            } else {
                MintError::NoAllowanceLeft
            }),
            old(self).wf() ==> final(self).wf(),
    {
        if self.has_allowance(status) && !self.is_owner(account_id) {
            let mut allowance = match self.get_whitelist_allowance(account_id) {
                Ok(allowance) => allowance,
                Err(e) => {
                    return Err(e);
                },
            };
            match allowance.use_num(num) {
                Ok(_) => {
                    self.whitelist.insert(account_id, allowance);
                    Ok(())
                },
                Err(_) => Err(MintError::AllowanceExceeded),
            }
        } else {
            Ok(())
        }
    }

    /// Whether the attached value covers `num` items for `account_id` in the
    /// given stage.
    pub fn assert_deposit(&self, status: Status, num: u16, account_id: &String, attached_deposit: u128) -> (outcome:
        Result<(), MintError>)
        ensures
            outcome is Ok <==> attached_deposit >= num * self.spec_cost_per_token(status, account_id@),
            outcome is Err ==> outcome == Err::<(), MintError>(MintError::InsufficientDeposit),
    {
        let unit: u128 = if self.is_owner(account_id) {
            0
        } else {
            self.price(status)
        };
        let count: u128 = num as u128;
        match count.checked_mul(unit) {
            Some(cost) => {
                if attached_deposit >= cost {
                    Ok(())
                } else {
                    Err(MintError::InsufficientDeposit)
                }
            },
            None => Err(MintError::InsufficientDeposit),
        }
    }

    /// Decides how many of the `num` items asked for `account_id` gets in
    /// the given stage, without changing anything.
    pub fn assert_can_mint(&self, status: Status, account_id: &String, num: u16, attached_deposit: u128) -> (outcome:
        Result<u16, MintError>)
        ensures
            outcome == self.mint_verdict(status, account_id@, num, attached_deposit),
    {
        let mut granted = num;
        if !self.is_owner(account_id) {
            let allowance: u16 = match status {
                Status::SoldOut => {
                    return Err(MintError::NotMintable { status });
                },
                Status::Closed => {
                    return Err(MintError::NotMintable { status });
                },
                Status::Presale => match self.whitelist.get(account_id) {
                    Some(allowance) => allowance.left(),
                    None => 0,
                },
                Status::Open => match self.sale.allowance {
                    Some(cap) => get_or_create(self.whitelist.get(account_id), cap).raise_max(cap).left(),
                    None => num,
                },
            };
            if allowance < num {
                granted = allowance;
            }
            if granted == 0 {
                return Err(MintError::NoAllowanceLeft);
            }
        }
        match self.assert_deposit(status, granted, account_id, attached_deposit) {
            Ok(_) => Ok(granted),
            Err(e) => Err(e),
        }
    }

    /// Lets only an account pass that holds no item yet.
    pub fn is_already_mint(supply_for_owner: u128) -> (outcome: Result<(), MintError>)
        ensures
            outcome is Ok <==> supply_for_owner == 0,
            outcome is Err ==> outcome == Err::<(), MintError>(MintError::AlreadyMinted),
    {
        if supply_for_owner == 0 {
            Ok(())
        } else {
            Err(MintError::AlreadyMinted)
        }
    }
}

} // verus!
