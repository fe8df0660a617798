//! The escrow vault of one item: what was declared, what has arrived, and
//! the settlement that pays it out and closes the vault.

use crate::account::{is_valid_account_id, valid_account_id};
use vstd::prelude::*;

verus! {

/// What is attached to every call that moves tokens.
pub const FT_TRANSFER_DEPOSIT: u128 = 1;

/// The gas given to every call that moves tokens.
pub const FT_TRANSFER_GAS: u64 = 60_000_000_000_000;

/// One part in this many of an amount is the service fee.
pub const FEE_DIVISOR: u128 = 100;

/// A declared token deposit.
#[derive(Clone, Debug)]
pub struct TokenDeposit {
    pub token_contract_id: String,
    pub token_amount: u128,
    pub is_deposited: bool,
}

/// What a vault reports about itself.
#[derive(Clone, Debug)]
pub struct AssetArgs {
    pub token_id: String,
    pub near_amount: u128,
    pub near_deposited: bool,
    pub token_deposit: Vec<TokenDeposit>,
}

/// The vault of one item.
#[derive(Clone, Debug)]
pub struct Contract {
    pub owner_id: String,
    pub token_id: String,
    pub near_amount: u128,
    pub near_deposited: bool,
    pub token_deposit: Vec<TokenDeposit>,
    /// Set by the settlement. A released vault is gone: it accepts nothing
    /// and pays nothing.
    pub released: bool,
}

/// A declared token deposit, as a value.
pub ghost struct DepositState {
    pub contract: Seq<char>,
    pub amount: u128,
    pub confirmed: bool,
}

/// A vault, as a value.
pub ghost struct VaultState {
    pub owner: Seq<char>,
    pub token_id: Seq<char>,
    pub base_amount: u128,
    pub base_confirmed: bool,
    pub deposits: Seq<DepositState>,
    pub released: bool,
}

/// Something the host has to carry out for the vault, as a value.
pub ghost enum EffectView {
    Transfer { receiver: Seq<char>, amount: u128 },
    FtTransfer { token_contract: Seq<char>, receiver: Seq<char>, amount: u128 },
    DeleteAccount { beneficiary: Seq<char> },
}

/// Something the host has to carry out for the vault.
#[derive(Clone, Debug)]
pub enum VaultAction {
    /// Send base currency.
    Transfer { receiver_id: String, amount: u128 },
    /// Ask a token contract to send tokens, with [`FT_TRANSFER_DEPOSIT`]
    /// attached and [`FT_TRANSFER_GAS`] of gas.
    FtTransfer { token_contract_id: String, receiver_id: String, amount: u128 },
    /// Delete the vault's account and hand what it still holds to the
    /// beneficiary.
    DeleteAccount { beneficiary_id: String },
}

/// What is wrong with a declaration.
#[derive(Clone, Copy, Debug, PartialEq, Eq, Structural)]
pub enum DeclarationFault {
    /// The token contract's name is not an account id.
    InvalidAssetId,
    /// The declared amount is zero.
    ZeroAmount,
    /// The declaration claims to be confirmed already.
    AlreadyConfirmed,
}

/// Why the vault turned a call down.
#[derive(Clone, Copy, Debug, PartialEq, Eq, Structural)]
pub enum VaultError {
    /// The account holds a vault already.
    AlreadyInitialized,
    /// The declaration at this position is malformed.
    InvalidDeclaration { index: usize, fault: DeclarationFault },
    /// The caller is not the vault's owner.
    Unauthorized,
    /// What was attached is not what the vault is waiting for.
    AssetMismatch,
    /// The vault has been released.
    Released,
}

impl VaultError {
    /// What to tell the caller.
    pub open spec fn spec_message(&self) -> Seq<char> {
        match self {
            VaultError::AlreadyInitialized => "Already initialized"@,
            VaultError::InvalidDeclaration { fault: DeclarationFault::InvalidAssetId, .. } => "Not valid token contract id"@,
            VaultError::InvalidDeclaration { fault: DeclarationFault::ZeroAmount, .. } => "Cannot wrap 0 token"@,
            VaultError::InvalidDeclaration { fault: DeclarationFault::AlreadyConfirmed, .. } => "is_deposit must be false"@,
            VaultError::Unauthorized => "Unauthorized"@,
            VaultError::AssetMismatch => "Can not accept Near Deposit"@,
            VaultError::Released => "Vault is released"@,
        }
    }

    /// What to tell the caller.
    pub fn message(&self) -> (text: String)
        ensures
            text@ == self.spec_message(),
    {
        match self {
            VaultError::AlreadyInitialized => "Already initialized".to_owned(),
            VaultError::InvalidDeclaration { fault: DeclarationFault::InvalidAssetId, .. } => "Not valid token contract id".to_owned(),
            VaultError::InvalidDeclaration { fault: DeclarationFault::ZeroAmount, .. } => "Cannot wrap 0 token".to_owned(),
            VaultError::InvalidDeclaration { fault: DeclarationFault::AlreadyConfirmed, .. } => "is_deposit must be false".to_owned(),
            VaultError::Unauthorized => "Unauthorized".to_owned(),
            VaultError::AssetMismatch => "Can not accept Near Deposit".to_owned(),
            VaultError::Released => "Vault is released".to_owned(),
        }
    }
}

impl View for TokenDeposit {
    type V = DepositState;

    open spec fn view(&self) -> DepositState {
        DepositState {
            contract: self.token_contract_id@,
            amount: self.token_amount,
            confirmed: self.is_deposited,
        }
    }
}

/// The declarations of `deposits`, as values.
pub open spec fn deposit_states(deposits: Seq<TokenDeposit>) -> Seq<DepositState> {
    Seq::new(deposits.len(), |i: int| deposits[i]@)
}

impl View for Contract {
    type V = VaultState;

    open spec fn view(&self) -> VaultState {
        VaultState {
            owner: self.owner_id@,
            token_id: self.token_id@,
            base_amount: self.near_amount,
            base_confirmed: self.near_deposited,
            deposits: deposit_states(self.token_deposit@),
            released: self.released,
        }
    }
}

impl View for VaultAction {
    type V = EffectView;

    open spec fn view(&self) -> EffectView {
        match self {
            VaultAction::Transfer { receiver_id, amount } => EffectView::Transfer {
                receiver: receiver_id@,
                amount: *amount,
            },
            VaultAction::FtTransfer { token_contract_id, receiver_id, amount } => EffectView::FtTransfer {
                token_contract: token_contract_id@,
                receiver: receiver_id@,
                amount: *amount,
            },
            VaultAction::DeleteAccount { beneficiary_id } => EffectView::DeleteAccount {
                beneficiary: beneficiary_id@,
            },
        }
    }
}

/// The effects of `actions`, as values.
pub open spec fn effects(actions: Seq<VaultAction>) -> Seq<EffectView> {
    Seq::new(actions.len(), |i: int| actions[i]@)
}

/// The service fee on `amount`: a hundredth of it, rounded down.
pub open spec fn fee(amount: u128) -> int {
    amount as int / 100
}

/// What has to be attached to confirm a base amount: the amount and the fee
/// on it.
pub open spec fn expected_base(base_amount: u128) -> int {
    base_amount + fee(base_amount)
}

/// What has to arrive to confirm a declaration of `token_amount` tokens in a
/// vault with the base amount `base_amount`: the declared tokens, and on top
/// of them the fee. The fee is the one on the vault's base amount, not one on
/// the tokens: a vault without a base amount takes its tokens free of charge.
pub open spec fn expected_tokens(base_amount: u128, token_amount: u128) -> int {
    token_amount + fee(base_amount)
}

/// What is wrong with the declaration, if anything: the contract's name is
/// looked at first, then the amount, then the flag.
pub open spec fn declaration_fault(declaration: DepositState) -> Option<DeclarationFault> {
    if !valid_account_id(declaration.contract) {
        Some(DeclarationFault::InvalidAssetId)
    } else if declaration.amount == 0 {
        Some(DeclarationFault::ZeroAmount)
    } else if declaration.confirmed {
        Some(DeclarationFault::AlreadyConfirmed)
    } else {
        None
    }
}

/// Position `i` holds the first malformed declaration.
pub open spec fn is_first_fault(declarations: Seq<DepositState>, i: int) -> bool {
    &&& 0 <= i < declarations.len()
    &&& declaration_fault(declarations[i]) is Some
    &&& forall|j: int| 0 <= j < i ==> declaration_fault(#[trigger] declarations[j]) is None
}

/// Every declaration is well formed.
pub open spec fn declarations_valid(declarations: Seq<DepositState>) -> bool {
    forall|i: int| 0 <= i < declarations.len() ==> declaration_fault(#[trigger] declarations[i]) is None
}

/// The declaration at position `i` is still waiting, belongs to `contract`,
/// and `amount` is exactly what confirms it.
pub open spec fn awaits(vault: VaultState, contract: Seq<char>, amount: u128, i: int) -> bool {
    &&& 0 <= i < vault.deposits.len()
    &&& vault.deposits[i].contract == contract
    &&& !vault.deposits[i].confirmed
    &&& amount == expected_tokens(vault.base_amount, vault.deposits[i].amount)
}

/// Position `i` holds the first declaration that the transfer confirms.
pub open spec fn is_first_awaiting(vault: VaultState, contract: Seq<char>, amount: u128, i: int) -> bool {
    &&& awaits(vault, contract, amount, i)
    &&& forall|j: int| 0 <= j < i ==> !awaits(vault, contract, amount, j)
}

/// The position of the declaration that a transfer of `amount` from
/// `contract` confirms: the first that waits for exactly that, in a vault
/// that has not been released.
pub open spec fn confirmed_by(vault: VaultState, contract: Seq<char>, amount: u128) -> Option<int> {
    if !vault.released && exists|i: int| is_first_awaiting(vault, contract, amount, i) {
        Some(choose|i: int| is_first_awaiting(vault, contract, amount, i))
    } else {
        None
    }
}

/// The vault with the declaration at position `i` confirmed.
pub open spec fn with_confirmed(vault: VaultState, i: int) -> VaultState {
    VaultState {
        owner: vault.owner,
        token_id: vault.token_id,
        base_amount: vault.base_amount,
        base_confirmed: vault.base_confirmed,
        deposits: vault.deposits.update(
            i,
            DepositState {
                contract: vault.deposits[i].contract,
                amount: vault.deposits[i].amount,
                confirmed: true,
            },
        ),
        released: vault.released,
    }
}

/// The vault after a transfer of `amount` from `contract` was announced.
pub open spec fn after_transfer(vault: VaultState, contract: Seq<char>, amount: u128) -> VaultState {
    match confirmed_by(vault, contract, amount) {
        Some(i) => with_confirmed(vault, i),
        None => vault,
    }
}

/// How much of an announced transfer the vault does not take: nothing if it
/// confirms a declaration, all of it otherwise.
pub open spec fn unused_of_transfer(vault: VaultState, contract: Seq<char>, amount: u128) -> u128 {
    match confirmed_by(vault, contract, amount) {
        Some(_) => 0,
        None => amount,
    }
}

/// What the vault passes on when a transfer confirms a declaration: the fee
/// part of what arrived, to the vault's owner. The declared tokens stay in
/// the vault.
pub open spec fn forwarded_of_transfer(vault: VaultState, contract: Seq<char>, amount: u128) -> Option<
    EffectView,
> {
    match confirmed_by(vault, contract, amount) {
        Some(i) => Some(
            EffectView::FtTransfer {
                token_contract: contract,
                receiver: vault.owner,
                amount: fee(vault.base_amount) as u128,
            },
        ),
        None => None,
    }
}

/// Whether an attached base amount is accepted: the vault waits for a base
/// amount, and exactly that amount with the fee on it is attached.
pub open spec fn base_accepted(vault: VaultState, attached: u128) -> bool {
    &&& !vault.released
    &&& vault.base_amount != 0
    &&& !vault.base_confirmed
    &&& attached == expected_base(vault.base_amount)
}

/// The vault with its base amount confirmed.
pub open spec fn with_base_confirmed(vault: VaultState) -> VaultState {
    VaultState {
        owner: vault.owner,
        token_id: vault.token_id,
        base_amount: vault.base_amount,
        base_confirmed: true,
        deposits: vault.deposits,
        released: vault.released,
    }
}

/// Everything the vault was opened to wait for has arrived: the base
/// amount, where one is declared, and every declared token deposit.
pub open spec fn fully_confirmed(vault: VaultState) -> bool {
    &&& vault.base_amount != 0 ==> vault.base_confirmed
    &&& forall|i: int| 0 <= i < vault.deposits.len() ==> (#[trigger] vault.deposits[i]).confirmed
}

/// Why `caller` may not release the vault, if so.
pub open spec fn release_fault(vault: VaultState, caller: Seq<char>) -> Option<VaultError> {
    if vault.released {
        Some(VaultError::Released)
    } else if caller != vault.owner {
        Some(VaultError::Unauthorized)
    } else {
        None
    }
}

/// The declarations with every confirmation cleared.
pub open spec fn cleared(deposits: Seq<DepositState>) -> Seq<DepositState> {
    Seq::new(
        deposits.len(),
        |i: int|
            DepositState { contract: deposits[i].contract, amount: deposits[i].amount, confirmed: false },
    )
}

/// The vault after its release: nothing is confirmed any more, and the vault
/// is gone.
pub open spec fn after_release(vault: VaultState) -> VaultState {
    VaultState {
        owner: vault.owner,
        token_id: vault.token_id,
        base_amount: vault.base_amount,
        base_confirmed: false,
        deposits: cleared(vault.deposits),
        released: true,
    }
}

/// The payment of the base amount to `claimant`, if it is confirmed.
pub open spec fn base_payout(vault: VaultState, claimant: Seq<char>) -> Seq<EffectView> {
    if vault.base_confirmed {
        seq![EffectView::Transfer { receiver: claimant, amount: vault.base_amount }]
    } else {
        Seq::empty()
    }
}

/// The payments of the confirmed declarations to `claimant`, in declared
/// order. A declaration that is not confirmed pays nothing.
pub open spec fn token_payouts(deposits: Seq<DepositState>, claimant: Seq<char>) -> Seq<EffectView>
    decreases deposits.len(),
{
    if deposits.len() == 0 {
        Seq::empty()
    } else {
        let last = deposits.last();
        let before = token_payouts(deposits.drop_last(), claimant);
        if last.confirmed {
            before.push(
                EffectView::FtTransfer {
                    token_contract: last.contract,
                    receiver: claimant,
                    amount: last.amount,
                },
            )
        } else {
            before
        }
    }
}

/// What a release to `claimant` carries out: the base amount if confirmed,
/// every confirmed declaration, and the deletion of the vault's account in
/// favour of the claimant.
pub open spec fn release_effects(vault: VaultState, claimant: Seq<char>) -> Seq<EffectView> {
    base_payout(vault, claimant) + token_payouts(vault.deposits, claimant)
        + seq![EffectView::DeleteAccount { beneficiary: claimant }]
}

/// What a transfer announcement leads to.
#[derive(Clone, Debug)]
pub struct TransferReceipt {
    /// How much of the transfer goes back to the sender.
    pub unused: u128,
    /// The fee to pass on, if the transfer was taken.
    pub forward: Option<VaultAction>,
}

/// The effect of an optional action, as a value.
pub open spec fn optional_effect(action: Option<VaultAction>) -> Option<EffectView> {
    match action {
        Some(a) => Some(a@),
        None => None,
    }
}

/// A copy of the declarations.
pub fn clone_deposits(deposits: &Vec<TokenDeposit>) -> (copy: Vec<TokenDeposit>)
    ensures
        deposit_states(copy@) == deposit_states(deposits@),
        copy@.len() == deposits@.len(),
        forall|i: int| 0 <= i < copy@.len() ==> (#[trigger] copy@[i])@ == deposits@[i]@,
{
    let mut copy: Vec<TokenDeposit> = Vec::new();
    let mut i: usize = 0;
    while i < deposits.len()
        invariant
            i <= deposits@.len(),
            copy@.len() == i,
            forall|j: int| 0 <= j < i ==> (#[trigger] copy@[j])@ == deposits@[j]@,
        decreases deposits@.len() - i,
    {
        copy.push(
            TokenDeposit {
                token_contract_id: deposits[i].token_contract_id.clone(),
                token_amount: deposits[i].token_amount,
                is_deposited: deposits[i].is_deposited,
            },
        );
        i = i + 1;
    }
    assert(deposit_states(copy@) =~= deposit_states(deposits@));
    copy
}

/// A copy of the declarations in which none is confirmed.
pub fn unconfirmed_deposits(deposits: &Vec<TokenDeposit>) -> (copy: Vec<TokenDeposit>)
    ensures
        deposit_states(copy@) == cleared(deposit_states(deposits@)),
        copy@.len() == deposits@.len(),
        forall|i: int|
            0 <= i < copy@.len() ==> !(#[trigger] copy@[i]).is_deposited && copy@[i].token_contract_id@
                == deposits@[i].token_contract_id@ && copy@[i].token_amount == deposits@[i].token_amount,
{
    let mut copy: Vec<TokenDeposit> = Vec::new();
    let mut i: usize = 0;
    while i < deposits.len()
        invariant
            i <= deposits@.len(),
            copy@.len() == i,
            forall|j: int|
                0 <= j < i ==> (#[trigger] copy@[j])@ == (DepositState {
                    contract: deposits@[j]@.contract,
                    amount: deposits@[j]@.amount,
                    confirmed: false,
                }),
        decreases deposits@.len() - i,
    {
        copy.push(
            TokenDeposit {
                token_contract_id: deposits[i].token_contract_id.clone(),
                token_amount: deposits[i].token_amount,
                is_deposited: false,
            },
        );
        i = i + 1;
    }
    assert(deposit_states(copy@) =~= cleared(deposit_states(deposits@)));
    copy
}

/// What goes back to `depositor` when the base deposit it attached is
/// refused: all of it.
pub open spec fn refund_of_refusal(depositor: Seq<char>, attached: u128) -> Option<EffectView> {
    if attached > 0 {
        Some(EffectView::Transfer { receiver: depositor, amount: attached })
    } else {
        None
    }
}

/// Returns a refused base deposit to whoever attached it. Nothing is sent
/// where nothing was attached.
pub fn refusal_refund(depositor: &String, attached_deposit: u128) -> (refund: Option<VaultAction>)
    ensures
        optional_effect(refund) == refund_of_refusal(depositor@, attached_deposit),
{
    if attached_deposit > 0 {
        Some(VaultAction::Transfer { receiver_id: depositor.clone(), amount: attached_deposit })
    } else {
        None
    }
}

impl Contract {
    /// Opens the vault of item `token_id` for `owner_id`, with a base amount
    /// and token deposits to wait for. `state_exists` says whether the
    /// account holds a vault already: a vault is opened once. Every
    /// declaration must name a token contract by a valid account id, declare
    /// more than nothing, and not be confirmed yet; the first declaration
    /// that fails this is reported, and for it the first of the three that
    /// fails.
    pub fn new(
        state_exists: bool,
        owner_id: String,
        token_id: String,
        near_amount: u128,
        token_deposit: Vec<TokenDeposit>,
    ) -> (outcome: Result<Contract, VaultError>)
        ensures
            outcome is Ok <==> !state_exists && declarations_valid(deposit_states(token_deposit@)),
            state_exists ==> outcome is Err && outcome->Err_0 == VaultError::AlreadyInitialized,
            outcome matches Ok(vault) ==> vault.token_deposit@.len() == token_deposit@.len(),
            outcome matches Ok(vault) ==> vault@ == (VaultState {
                owner: owner_id@,
                token_id: token_id@,
                base_amount: near_amount,
                base_confirmed: false,
                deposits: deposit_states(token_deposit@),
                released: false,
            }),
            !state_exists && outcome is Err ==> exists|i: int| #[trigger]
                is_first_fault(deposit_states(token_deposit@), i) && outcome->Err_0
                    == (VaultError::InvalidDeclaration {
                    index: i as usize,
                    fault: declaration_fault(deposit_states(token_deposit@)[i])->0,
                }),
    {
        if state_exists {
            return Err(VaultError::AlreadyInitialized);
        }
        let ghost declarations = deposit_states(token_deposit@);
        let mut i: usize = 0;
        while i < token_deposit.len()
            invariant
                !state_exists,
                i <= token_deposit@.len(),
                declarations == deposit_states(token_deposit@),
                forall|j: int| 0 <= j < i ==> declaration_fault(#[trigger] declarations[j]) is None,
            decreases token_deposit@.len() - i,
        {
            let fault = if !is_valid_account_id(token_deposit[i].token_contract_id.as_str()) {
                Some(DeclarationFault::InvalidAssetId)
            } else if token_deposit[i].token_amount == 0 {
                Some(DeclarationFault::ZeroAmount)
            } else if token_deposit[i].is_deposited {
                Some(DeclarationFault::AlreadyConfirmed)
            } else {
                None
            };
            assert(fault == declaration_fault(declarations[i as int]));
            match fault {
                Some(fault) => {
                    assert(is_first_fault(declarations, i as int));
                    return Err(VaultError::InvalidDeclaration { index: i, fault });
                },
                None => {},
            }
            i = i + 1;
        }
        Ok(Contract { owner_id, token_id, near_amount, near_deposited: false, token_deposit, released: false })
    }

    /// What the vault holds and waits for.
    pub fn get_info(&self) -> (info: AssetArgs)
        ensures
            info.token_id@ == self@.token_id,
            info.near_amount == self@.base_amount,
            info.near_deposited == self@.base_confirmed,
            deposit_states(info.token_deposit@) == self@.deposits,
            info.token_deposit@.len() == self.token_deposit@.len(),
            forall|i: int|
                0 <= i < info.token_deposit@.len() ==> (#[trigger] info.token_deposit@[i])@
                    == self.token_deposit@[i]@,
    {
        let token_deposit = clone_deposits(&self.token_deposit);
        AssetArgs {
            token_id: self.token_id.clone(),
            near_amount: self.near_amount,
            near_deposited: self.near_deposited,
            token_deposit,
        }
    }

    /// Whether everything the vault waits for has arrived. A release does
    /// not ask for this: whoever wants all or nothing asks here first.
    pub fn is_fully_confirmed(&self) -> (yes: bool)
        ensures
            yes == fully_confirmed(self@),
    {
        if self.near_amount != 0 && !self.near_deposited {
            return false;
        }
        let mut i: usize = 0;
        while i < self.token_deposit.len()
            invariant
                i <= self.token_deposit@.len(),
                forall|j: int| 0 <= j < i ==> (#[trigger] self@.deposits[j]).confirmed,
            decreases self.token_deposit@.len() - i,
        {
            if !self.token_deposit[i].is_deposited {
                assert(!self@.deposits[i as int].confirmed);
                return false;
            }
            i = i + 1;
        }
        true
    }

    /// Settles the vault in favour of `owner_id` on behalf of `caller`. Only
    /// the vault's owner may call, and only once. Whatever is confirmed at
    /// that moment is paid out, in the order base amount, declarations as
    /// declared, deletion; what is not confirmed is dropped.
    pub fn release(&mut self, caller: &String, owner_id: &String) -> (outcome: Result<
        Vec<VaultAction>,
        VaultError,
    >)
        ensures
            final(self).token_deposit@.len() == old(self).token_deposit@.len(),
            match outcome {
                Ok(actions) => release_fault(old(self)@, caller@) is None && final(self)@
                    == after_release(old(self)@) && effects(actions@) == release_effects(
                    old(self)@,
                    owner_id@,
                ),
                Err(e) => release_fault(old(self)@, caller@) == Some(e) && final(self)@ == old(self)@,
            },
    {
        if self.released {
            return Err(VaultError::Released);
        }
        if *caller != self.owner_id {
            return Err(VaultError::Unauthorized);
        }
        let ghost before = self@;
        let mut actions: Vec<VaultAction> = Vec::new();
        if self.near_deposited {
            actions.push(VaultAction::Transfer { receiver_id: owner_id.clone(), amount: self.near_amount });
            self.near_deposited = false;
        }
        assert(effects(actions@) =~= base_payout(before, owner_id@));
        let mut remaining: Vec<TokenDeposit> = Vec::new();
        let mut i: usize = 0;
        while i < self.token_deposit.len()
            invariant
                i <= self.token_deposit@.len(),
                deposit_states(self.token_deposit@) == before.deposits,
                remaining@.len() == i,
                deposit_states(remaining@) == cleared(before.deposits.take(i as int)),
                effects(actions@) == base_payout(before, owner_id@) + token_payouts(
                    before.deposits.take(i as int),
                    owner_id@,
                ),
            decreases self.token_deposit@.len() - i,
        {
            let ghost paid = effects(actions@);
            let ghost kept = remaining@;
            if self.token_deposit[i].is_deposited {
                actions.push(
                    VaultAction::FtTransfer {
                        token_contract_id: self.token_deposit[i].token_contract_id.clone(),
                        receiver_id: owner_id.clone(),
                        amount: self.token_deposit[i].token_amount,
                    },
                );
            }
            remaining.push(
                TokenDeposit {
                    token_contract_id: self.token_deposit[i].token_contract_id.clone(),
                    token_amount: self.token_deposit[i].token_amount,
                    is_deposited: false,
                },
            );
            proof {
                let upto = before.deposits.take(i + 1);
                assert(upto.drop_last() =~= before.deposits.take(i as int));
                assert(upto.last() == before.deposits[i as int]);
                assert(before.deposits[i as int] == self.token_deposit@[i as int]@);
                if before.deposits[i as int].confirmed {
                    assert(effects(actions@) =~= paid.push(
                        EffectView::FtTransfer {
                            token_contract: before.deposits[i as int].contract,
                            receiver: owner_id@,
                            amount: before.deposits[i as int].amount,
                        },
                    ));
                }
                assert(effects(actions@) =~= base_payout(before, owner_id@) + token_payouts(
                    upto,
                    owner_id@,
                ));
                assert forall|j: int| 0 <= j < i implies deposit_states(remaining@)[j] == cleared(
                    upto,
                )[j] by {
                    assert(remaining@[j] == kept[j]);
                    assert(deposit_states(kept)[j] == cleared(before.deposits.take(i as int))[j]);
                }
                assert(deposit_states(remaining@) =~= cleared(upto));
            }
            i = i + 1;
        }
        proof {
            assert(before.deposits.take(i as int) =~= before.deposits);
        }
        let ghost paid = effects(actions@);
        actions.push(VaultAction::DeleteAccount { beneficiary_id: owner_id.clone() });
        assert(effects(actions@) =~= paid + seq![EffectView::DeleteAccount { beneficiary: owner_id@ }]);
        self.token_deposit = remaining;
        self.released = true;
        Ok(actions)
    }

    /// Takes an attached base amount. It is accepted if the vault waits for
    /// a base amount and exactly that amount plus the fee on it is attached;
    /// the fee is then passed on to the vault's owner. Anything else is
    /// turned down and changes nothing.
    pub fn deposit_near(&mut self, attached_deposit: u128) -> (outcome: Result<VaultAction, VaultError>)
        ensures
            final(self).token_deposit@.len() == old(self).token_deposit@.len(),
            match outcome {
                Ok(action) => base_accepted(old(self)@, attached_deposit) && final(self)@
                    == with_base_confirmed(old(self)@) && action@ == (EffectView::Transfer {
                    receiver: old(self)@.owner,
                    amount: (old(self)@.base_amount / 100) as u128,
                }),
                Err(e) => !base_accepted(old(self)@, attached_deposit) && final(self)@ == old(self)@
                    && e == (if old(self)@.released {
                    VaultError::Released
                } else {
                    VaultError::AssetMismatch
                }),
            },
    {
        if self.released {
            return Err(VaultError::Released);
        }
        if self.near_amount == 0 || self.near_deposited {
            return Err(VaultError::AssetMismatch);
        }
        let fee = self.near_amount / FEE_DIVISOR;
        if fee > u128::MAX - self.near_amount {
            return Err(VaultError::AssetMismatch);
        }
        if fee + self.near_amount != attached_deposit {
            return Err(VaultError::AssetMismatch);
        }
        self.near_deposited = true;
        Ok(VaultAction::Transfer { receiver_id: self.owner_id.clone(), amount: fee })
    }

    /// The first declaration that a transfer of `amount` from
    /// `token_contract_id` confirms.
    fn find_awaiting(&self, token_contract_id: &String, amount: u128) -> (found: Option<usize>)
        ensures
            match found {
                Some(i) => is_first_awaiting(self@, token_contract_id@, amount, i as int),
                None => forall|i: int| !awaits(self@, token_contract_id@, amount, i),
            },
    {
        let base_fee = self.near_amount / FEE_DIVISOR;
        let mut i: usize = 0;
        while i < self.token_deposit.len()
            invariant
                i <= self.token_deposit@.len(),
                base_fee == fee(self.near_amount),
                forall|j: int| 0 <= j < i ==> !awaits(self@, token_contract_id@, amount, j),
            decreases self.token_deposit@.len() - i,
        {
            let declared = &self.token_deposit[i];
            if declared.token_contract_id == *token_contract_id && !declared.is_deposited {
                if declared.token_amount <= u128::MAX - base_fee && declared.token_amount + base_fee
                    == amount {
                    return Some(i);
                }
            }
            i = i + 1;
        }
        None
    }

    /// Takes the announcement that `amount` tokens arrived from
    /// `token_contract_id`. The first declaration of that contract that is
    /// still waiting and is confirmed by exactly this amount becomes
    /// confirmed, the fee part of the amount is passed on to the vault's
    /// owner, and nothing of the transfer is unused. Without such a declaration the
    /// vault stays as it is and the whole amount is unused.
    pub fn ft_on_transfer(&mut self, token_contract_id: &String, amount: u128) -> (receipt: TransferReceipt)
        ensures
            final(self)@ == after_transfer(old(self)@, token_contract_id@, amount),
            final(self).token_deposit@.len() == old(self).token_deposit@.len(),
            receipt.unused == unused_of_transfer(old(self)@, token_contract_id@, amount),
            optional_effect(receipt.forward) == forwarded_of_transfer(
                old(self)@,
                token_contract_id@,
                amount,
            ),
    {
        if self.released {
            return TransferReceipt { unused: amount, forward: None };
        }
        match self.find_awaiting(token_contract_id, amount) {
            Some(i) => {
                proof {
                    let k = choose|k: int| is_first_awaiting(self@, token_contract_id@, amount, k);
                    if k < i {
                        assert(!awaits(self@, token_contract_id@, amount, k));
                    }
                    if i < k {
                        assert(!awaits(self@, token_contract_id@, amount, i as int));
                    }
                }
                let token_amount = self.token_deposit[i].token_amount;
                let confirmed = TokenDeposit {
                    token_contract_id: self.token_deposit[i].token_contract_id.clone(),
                    token_amount,
                    is_deposited: true,
                };
                self.token_deposit.set(i, confirmed);
                assert(self@.deposits =~= with_confirmed(old(self)@, i as int).deposits);
                TransferReceipt {
                    unused: 0,
                    forward: Some(
                        VaultAction::FtTransfer {
                            token_contract_id: token_contract_id.clone(),
                            receiver_id: self.owner_id.clone(),
                            amount: self.near_amount / FEE_DIVISOR,
                        },
                    ),
                }
            },
            None => TransferReceipt { unused: amount, forward: None },
        }
    }
}

/// A transfer that no waiting declaration of its contract expects to the
/// unit confirms nothing, passes nothing on, and is unused in full.
pub proof fn lemma_inexact_transfer_is_unused(vault: VaultState, contract: Seq<char>, amount: u128)
    requires
        forall|i: int|
            0 <= i < vault.deposits.len() && (#[trigger] vault.deposits[i]).contract == contract
                && !vault.deposits[i].confirmed ==> amount != expected_tokens(
                vault.base_amount,
                vault.deposits[i].amount,
            ),
    ensures
        after_transfer(vault, contract, amount) == vault,
        unused_of_transfer(vault, contract, amount) == amount,
        forwarded_of_transfer(vault, contract, amount) is None,
{
    assert forall|i: int| !is_first_awaiting(vault, contract, amount, i) by {
        if awaits(vault, contract, amount, i) {
            assert(vault.deposits[i].contract == contract);
        }
    }
}

/// A transfer changes at most one declaration, and only from waiting to
/// confirmed: the declaration is of the transfer's contract and the amount is
/// exactly what it expects. Everything else in the vault stays, and the
/// transfer is unused in full unless a declaration was confirmed.
pub proof fn lemma_transfer_confirms_only_what_it_matches(
    vault: VaultState,
    contract: Seq<char>,
    amount: u128,
)
    ensures
        ({
            let after = after_transfer(vault, contract, amount);
            &&& after.owner == vault.owner
            &&& after.token_id == vault.token_id
            &&& after.base_amount == vault.base_amount
            &&& after.base_confirmed == vault.base_confirmed
            &&& after.released == vault.released
            &&& after.deposits.len() == vault.deposits.len()
            &&& forall|i: int|
                0 <= i < vault.deposits.len() ==> (#[trigger] after.deposits[i]).contract
                    == vault.deposits[i].contract && after.deposits[i].amount
                    == vault.deposits[i].amount
            &&& forall|i: int|
                0 <= i < vault.deposits.len() && (#[trigger] after.deposits[i]).confirmed
                    != vault.deposits[i].confirmed ==> awaits(vault, contract, amount, i)
                    && confirmed_by(vault, contract, amount) == Some(i)
                    && after.deposits[i].confirmed
            &&& (unused_of_transfer(vault, contract, amount) == 0 || unused_of_transfer(
                vault,
                contract,
                amount,
            ) == amount)
            &&& unused_of_transfer(vault, contract, amount) != amount ==> confirmed_by(
                vault,
                contract,
                amount,
            ) is Some
        }),
{
    if confirmed_by(vault, contract, amount) is Some {
        let k = confirmed_by(vault, contract, amount)->0;
        assert(is_first_awaiting(vault, contract, amount, k));
    }
}

/// What a confirming transfer brings is the declared amount and the fee
/// part, no more and no less: the vault passes the fee part on and keeps the
/// declared amount, which is what a release pays out for that declaration.
pub proof fn lemma_confirming_transfer_keeps_the_declared_amount(
    vault: VaultState,
    contract: Seq<char>,
    amount: u128,
)
    requires
        confirmed_by(vault, contract, amount) is Some,
    ensures
        ({
            let i = confirmed_by(vault, contract, amount)->0;
            &&& 0 <= i < vault.deposits.len()
            &&& forwarded_of_transfer(vault, contract, amount) is Some
            &&& forwarded_of_transfer(vault, contract, amount)->0 == (EffectView::FtTransfer {
                token_contract: contract,
                receiver: vault.owner,
                amount: (amount - vault.deposits[i].amount) as u128,
            })
            &&& amount >= vault.deposits[i].amount
            &&& after_transfer(vault, contract, amount).deposits[i].amount == vault.deposits[i].amount
            &&& after_transfer(vault, contract, amount).deposits[i].confirmed
        }),
{
    let i = confirmed_by(vault, contract, amount)->0;
    assert(is_first_awaiting(vault, contract, amount, i));
}

/// An attached base amount other than the expected one is refused.
pub proof fn lemma_inexact_base_is_refused(vault: VaultState, attached: u128)
    requires
        attached != expected_base(vault.base_amount),
    ensures
        !base_accepted(vault, attached),
{
}

/// Declarations without a confirmation pay nothing.
proof fn lemma_cleared_pays_nothing(deposits: Seq<DepositState>, claimant: Seq<char>)
    ensures
        token_payouts(cleared(deposits), claimant) == Seq::<EffectView>::empty(),
    decreases deposits.len(),
{
    if deposits.len() > 0 {
        lemma_cleared_pays_nothing(deposits.drop_last(), claimant);
        assert(cleared(deposits).drop_last() =~= cleared(deposits.drop_last()));
    }
}

/// A release happens once. After a release that was granted, a second one is
/// refused whoever asks, nothing is left confirmed that it could pay, and the
/// vault takes no further deposit.
pub proof fn lemma_release_happens_once(
    vault: VaultState,
    caller: Seq<char>,
    second_caller: Seq<char>,
    second_claimant: Seq<char>,
)
    requires
        release_fault(vault, caller) is None,
    ensures
        release_fault(after_release(vault), second_caller) == Some(VaultError::Released),
        base_payout(after_release(vault), second_claimant) == Seq::<EffectView>::empty(),
        token_payouts(after_release(vault).deposits, second_claimant) == Seq::<EffectView>::empty(),
        forall|contract: Seq<char>, amount: u128| #[trigger]
            confirmed_by(after_release(vault), contract, amount) is None,
        forall|attached: u128| !#[trigger] base_accepted(after_release(vault), attached),
{
    lemma_cleared_pays_nothing(vault.deposits, second_claimant);
}

/// A vault that was opened with valid declarations waits for all of them:
/// nothing is confirmed, so a release would pay nothing but close the vault.
pub proof fn lemma_new_vault_is_unconfirmed(vault: VaultState, claimant: Seq<char>)
    requires
        declarations_valid(vault.deposits),
        !vault.base_confirmed,
    ensures
        forall|i: int| 0 <= i < vault.deposits.len() ==> !(#[trigger] vault.deposits[i]).confirmed,
        release_effects(vault, claimant) == seq![EffectView::DeleteAccount { beneficiary: claimant }],
{
    assert forall|i: int| 0 <= i < vault.deposits.len() implies !(#[trigger] vault.deposits[i]).confirmed by {
        assert(declaration_fault(vault.deposits[i]) is None);
    }
    assert(cleared(vault.deposits) =~= vault.deposits);
    lemma_cleared_pays_nothing(vault.deposits, claimant);
    assert(release_effects(vault, claimant) =~= seq![EffectView::DeleteAccount { beneficiary: claimant }]);
}

} // verus!
