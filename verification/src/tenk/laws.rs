//! What holds of every mint.

use crate::account::{decimal, lemma_decimal_is_injective};
use crate::status::Status;
use crate::tenk::types::Token;
use crate::tenk::{
    are_items, are_vault_orders, is_mint, CallContext, Contract, MintError, MintReceipt, VAULT_FUNDING,
};
use crate::vault::{cleared, deposit_states, DepositState};
use vstd::prelude::*;

verus! {

/// Identifiers are never used twice: the items of one mint are numbered
/// apart from each other and apart from every item minted before.
pub proof fn lemma_minted_identifiers_are_new(
    tokens: Seq<Token>,
    last_id: u64,
    num: int,
    owner: Seq<char>,
    block_timestamp: u64,
)
    requires
        are_items(tokens, last_id, num, owner, block_timestamp),
    ensures
        forall|i: int, j: int|
            0 <= i < num && 0 <= j < num && i != j ==> (#[trigger] tokens[i]).token_id@
                != (#[trigger] tokens[j]).token_id@,
        forall|i: int, earlier: nat|
            0 <= i < num && earlier <= last_id ==> (#[trigger] tokens[i]).token_id@ != #[trigger] decimal(
                earlier,
            ),
{
    assert forall|i: int, j: int| 0 <= i < num && 0 <= j < num && i != j implies (#[trigger] tokens[i]).token_id@
        != (#[trigger] tokens[j]).token_id@ by {
        if tokens[i].token_id@ == tokens[j].token_id@ {
            lemma_decimal_is_injective((last_id + 1 + i) as nat, (last_id + 1 + j) as nat);
        }
    }
    assert forall|i: int, earlier: nat| 0 <= i < num && earlier <= last_id implies (#[trigger] tokens[i]).token_id@
        != #[trigger] decimal(earlier) by {
        if tokens[i].token_id@ == decimal(earlier) {
            lemma_decimal_is_injective((last_id + 1 + i) as nat, earlier);
        }
    }
}

/// A request is never granted more than was asked for, and only if the
/// attached value covers the funding of a vault for every item granted.
/// Anyone but the owner is granted at least one item and no more than its
/// allowance has left, only in presale or public sale, and only if the
/// attached value covers the items at the stage's price.
pub proof fn lemma_grant_is_within_request_and_allowance(
    contract: Contract,
    status: Status,
    account: Seq<char>,
    num: u16,
    attached_deposit: u128,
)
    requires
        contract.spec_mint(status, account, num, attached_deposit) is Ok,
    ensures
        ({
            let granted = contract.spec_mint(status, account, num, attached_deposit)->Ok_0;
            &&& granted <= num
            &&& attached_deposit >= granted * VAULT_FUNDING
            &&& contract.sale.mint_rate_limit is Some ==> num <= contract.sale.mint_rate_limit->0
            &&& !contract.spec_is_owner(account) ==> {
                &&& granted >= 1
                &&& status == Status::Presale || status == Status::Open
                &&& contract.spec_allowance_left(status, account) is Some ==> granted
                    <= contract.spec_allowance_left(status, account)->0
                &&& attached_deposit >= granted * contract.spec_price(status)
            }
        }),
{
}

/// An account that asks for more than its allowance has left gets exactly
/// what is left, provided that is more than nothing, paid for and funded,
/// and its allowance is debited by that number and left empty.
pub proof fn lemma_mint_is_cut_to_allowance(
    contract: Contract,
    status: Status,
    account: Seq<char>,
    num: u16,
    attached_deposit: u128,
)
    requires
        !contract.spec_is_owner(account),
        status == Status::Presale || status == Status::Open,
        contract.sale.mint_rate_limit is Some ==> num <= contract.sale.mint_rate_limit->0,
        contract.spec_allowance_left(status, account) is Some,
        0 < contract.spec_allowance_left(status, account)->0 < num,
        attached_deposit >= contract.spec_allowance_left(status, account)->0 * contract.spec_price(status),
        attached_deposit >= contract.spec_allowance_left(status, account)->0 * VAULT_FUNDING,
    ensures
        ({
            let left = contract.spec_allowance_left(status, account)->0;
            let before = if status == Status::Presale {
                contract.whitelist@[account]
            } else {
                contract.spec_public_allowance(account, contract.sale.allowance->0)
            };
            let after = contract.whitelist_after_mint(status, account, left as u16);
            &&& contract.spec_mint(status, account, num, attached_deposit) == Ok::<u16, MintError>(left as u16)
            &&& before.spec_left() == left
            &&& after.contains_key(account)
            &&& after[account].claimed == before.claimed + left
            &&& after[account].max == before.max
            &&& after[account].spec_left() == 0
            &&& forall|other: Seq<char>|
                other != account ==> (after.contains_key(other) <==> contract.whitelist@.contains_key(other))
            &&& forall|other: Seq<char>|
                other != account && contract.whitelist@.contains_key(other) ==> after[other]
                    == contract.whitelist@[other]
        }),
{
}

/// A mint in a public sale without a cap, and any mint of the owner, leaves
/// the allowance table as it is: no record is made.
pub proof fn lemma_uncapped_mint_keeps_no_record(
    contract: Contract,
    status: Status,
    account: Seq<char>,
    quantity: u16,
)
    requires
        contract.spec_is_owner(account) || (status == Status::Open && contract.sale.allowance is None),
    ensures
        contract.whitelist_after_mint(status, account, quantity) == contract.whitelist@,
{
}

/// In the presale nobody is given an allowance: an account without one on
/// record, other than the owner, is turned down for want of allowance
/// whatever it asks for within the rate limit and whatever it attaches.
pub proof fn lemma_presale_grants_nothing_unrecorded(
    contract: Contract,
    account: Seq<char>,
    num: u16,
    attached_deposit: u128,
)
    requires
        !contract.spec_is_owner(account),
        !contract.whitelist@.contains_key(account),
        contract.sale.mint_rate_limit is Some ==> num <= contract.sale.mint_rate_limit->0,
    ensures
        contract.spec_mint(Status::Presale, account, num, attached_deposit) == Err::<u16, MintError>(
            MintError::NoAllowanceLeft,
        ),
{
}

/// In a public sale without a cap and without a rate limit, a buyer who asks
/// for a number of items and attaches that many times the price gets them
/// all: the items that follow the last one, and for each a vault order in its
/// name, seeded with what it declared, nothing of it confirmed. No allowance
/// is recorded for the buyer, and the table stays as it is. What is attached
/// must also cover the funding of the vaults.
pub proof fn lemma_open_sale_mints_what_is_paid_for(
    before: Contract,
    after: Contract,
    ctx: CallContext,
    num: u16,
    near_amount: u128,
    declared: Seq<DepositState>,
    outcome: Result<MintReceipt, MintError>,
)
    requires
        before.spec_status(ctx.block_timestamp) == Status::Open,
        before.sale.allowance is None,
        before.sale.mint_rate_limit is None,
        !before.spec_is_owner(ctx.predecessor_account_id@),
        num >= 1,
        ctx.attached_deposit == num * before.sale.price,
        ctx.attached_deposit >= num * VAULT_FUNDING,
        is_mint(before, after, ctx, num, near_amount, declared, outcome),
    ensures
        outcome is Ok,
        are_items(
            outcome->Ok_0.tokens@,
            before.last_id,
            num as int,
            ctx.predecessor_account_id@,
            ctx.block_timestamp,
        ),
        are_vault_orders(
            outcome->Ok_0.vaults@,
            before.last_id,
            num as int,
            ctx.current_account_id@,
            ctx.predecessor_account_id@,
            near_amount,
            declared,
            false,
        ),
        forall|i: int, j: int|
            0 <= i < num && 0 <= j < declared.len() ==> !(#[trigger] deposit_states(
                outcome->Ok_0.vaults@[i].token_deposit@,
            )[j]).confirmed,
        after.last_id == before.last_id + num,
        after.whitelist@ == before.whitelist@,
        !before.whitelist@.contains_key(ctx.predecessor_account_id@) ==> !after.whitelist@.contains_key(
            ctx.predecessor_account_id@,
        ),
{
    let status = before.spec_status(ctx.block_timestamp);
    let buyer = ctx.predecessor_account_id@;
    assert(before.mint_verdict(status, buyer, num, ctx.attached_deposit) == Ok::<u16, MintError>(num));
    assert(before.spec_mint(status, buyer, num, ctx.attached_deposit) == Ok::<u16, MintError>(num));
    assert forall|i: int, j: int| 0 <= i < num && 0 <= j < declared.len() implies !(#[trigger] deposit_states(
        outcome->Ok_0.vaults@[i].token_deposit@,
    )[j]).confirmed by {
        assert(deposit_states(outcome->Ok_0.vaults@[i].token_deposit@) == cleared(declared));
    }
}

/// A mint keeps every allowance within its maximum: if nothing in the table
/// claims more than it may before the mint, nothing does after it.
pub proof fn lemma_mint_keeps_allowances_within_their_maximum(
    contract: Contract,
    status: Status,
    account: Seq<char>,
    num: u16,
    attached_deposit: u128,
)
    requires
        forall|other: Seq<char>| #[trigger]
            contract.whitelist@.contains_key(other) ==> contract.whitelist@[other].wf(),
        contract.spec_mint(status, account, num, attached_deposit) is Ok,
    ensures
        ({
            let granted = contract.spec_mint(status, account, num, attached_deposit)->Ok_0;
            let after = contract.whitelist_after_mint(status, account, granted);
            forall|other: Seq<char>| #[trigger] after.contains_key(other) ==> after[other].wf()
        }),
{
}

} // verus!
