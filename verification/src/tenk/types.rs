//! The sale's configuration and the items it produces.

use vstd::prelude::*;

verus! {

/// The latest moment, in milliseconds since the epoch, that a date can name.
pub const MAX_DATE: u64 = 8640000000000000;

/// The metadata standard every collection declares.
pub open spec fn nft_metadata_spec() -> Seq<char> {
    "nft-1.0.0"@
}

/// The length of a content hash in bytes.
pub const HASH_LENGTH: usize = 32;

/// One account's part of a royalty split.
#[derive(Clone, Debug)]
pub struct RoyaltyShare {
    pub account: String,
    pub share: u8,
}

/// How proceeds are split.
#[derive(Clone, Debug)]
pub struct Royalties {
    pub accounts: Vec<RoyaltyShare>,
    pub percent: u8,
}

/// A payment that is due.
#[derive(Clone, Debug)]
pub struct Payment {
    pub receiver_id: String,
    pub amount: u128,
}

/// The most accounts that may share royalties.
pub const MAX_ROYALTY_ACCOUNTS: usize = 10;

/// `percent` hundredths of `amount`, rounded down.
pub open spec fn percent_of(percent: u8, amount: u128) -> int {
    amount * percent / 100
}

/// The sum of the first `n` shares.
pub open spec fn shares_sum(accounts: Seq<RoyaltyShare>, n: int) -> int
    decreases n,
{
    if n <= 0 {
        0
    } else {
        shares_sum(accounts, n - 1) + accounts[n - 1].share
    }
}

/// Computes `percent` hundredths of `amount`, rounded down.
pub fn apply_percent(percent: u8, amount: u128) -> (part: u128)
    requires
        percent <= 100,
    ensures
        part == percent_of(percent, amount),
        part <= amount,
{
    let whole: u128 = amount / 100;
    let rest: u128 = amount % 100;
    let rate: u128 = percent as u128;
    assert(rest * rate <= 9900 && whole * rate <= amount && whole * rate + rest * rate / 100 <= amount
        && amount * rate / 100 == whole * rate + rest * rate / 100) by (nonlinear_arith)
        requires
            amount == 100 * whole + rest,
            0 <= rest < 100,
            0 <= rate <= 100,
            0 <= whole,
    ;
    whole * rate + rest * rate / 100
}

impl Royalties {
    /// The split takes at most everything, is shared by at most ten
    /// accounts, and the shares add up to at most the whole.
    pub open spec fn valid(&self) -> bool {
        &&& self.percent <= 100
        &&& self.accounts@.len() <= MAX_ROYALTY_ACCOUNTS
        &&& shares_sum(self.accounts@, self.accounts@.len() as int) <= 100
    }

    /// What the royalties take of `balance`.
    pub open spec fn spec_royalty(&self, balance: u128) -> int {
        percent_of(self.percent, balance)
    }

    /// `payments` are what is due when `balance` is split and the rest goes
    /// to `owner`: each account's share of the royalty, in the order of the
    /// accounts, and then what the royalty leaves of the balance, to the
    /// owner.
    pub open spec fn is_payout(&self, payments: Seq<Payment>, balance: u128, owner: Seq<char>) -> bool {
        &&& payments.len() == self.accounts@.len() + 1
        &&& forall|i: int|
            0 <= i < self.accounts@.len() ==> (#[trigger] payments[i]).receiver_id@
                == self.accounts@[i].account@ && payments[i].amount == percent_of(
                self.accounts@[i].share,
                self.spec_royalty(balance) as u128,
            )
        &&& payments[self.accounts@.len() as int].receiver_id@ == owner
        &&& payments[self.accounts@.len() as int].amount == balance - self.spec_royalty(balance)
    }

    /// Whether the split is valid.
    pub fn validate(&self) -> (ok: bool)
        ensures
            ok == self.valid(),
    {
        if self.percent > 100 || self.accounts.len() > MAX_ROYALTY_ACCOUNTS {
            return false;
        }
        let mut total: u16 = 0;
        let mut i: usize = 0;
        while i < self.accounts.len()
            invariant
                i <= self.accounts@.len(),
                self.accounts@.len() <= MAX_ROYALTY_ACCOUNTS,
                total == shares_sum(self.accounts@, i as int),
                total <= 255 * i,
            decreases self.accounts@.len() - i,
        {
            total = total + self.accounts[i].share as u16;
            i = i + 1;
        }
        total <= 100
    }

    /// Splits `balance`: every account gets its share of the royalty, and
    /// `owner_id` what the royalty leaves of the balance.
    pub fn payout(&self, balance: u128, owner_id: &String) -> (payments: Vec<Payment>)
        requires
            self.valid(),
        ensures
            self.is_payout(payments@, balance, owner_id@),
    {
        let royalty = apply_percent(self.percent, balance);
        let mut payments: Vec<Payment> = Vec::new();
        let mut i: usize = 0;
        while i < self.accounts.len()
            invariant
                i <= self.accounts@.len(),
                self.valid(),
                royalty == self.spec_royalty(balance),
                payments@.len() == i,
                forall|j: int|
                    0 <= j < i ==> (#[trigger] payments@[j]).receiver_id@ == self.accounts@[j].account@
                        && payments@[j].amount == percent_of(self.accounts@[j].share, royalty),
            decreases self.accounts@.len() - i,
        {
            proof {
                lemma_shares_sum_grows(self.accounts@, i as int + 1, self.accounts@.len() as int);
            }
            let amount = apply_percent(self.accounts[i].share, royalty);
            payments.push(Payment { receiver_id: self.accounts[i].account.clone(), amount });
            i = i + 1;
        }
        payments.push(Payment { receiver_id: owner_id.clone(), amount: balance - royalty });
        payments
    }
}

/// A sum of shares is not negative.
pub proof fn lemma_shares_sum_is_not_negative(accounts: Seq<RoyaltyShare>, n: int)
    ensures
        shares_sum(accounts, n) >= 0,
    decreases n,
{
    if n > 0 {
        lemma_shares_sum_is_not_negative(accounts, n - 1);
    }
}

/// The sum of the first shares never exceeds the sum of more of them, and no
/// share exceeds a sum it is part of.
pub proof fn lemma_shares_sum_grows(accounts: Seq<RoyaltyShare>, n: int, m: int)
    requires
        0 <= n <= m,
    ensures
        shares_sum(accounts, n) <= shares_sum(accounts, m),
        n >= 1 ==> accounts[n - 1].share <= shares_sum(accounts, n),
    decreases m - n,
{
    if n >= 1 {
        lemma_shares_sum_is_not_negative(accounts, n - 1);
    }
    if n < m {
        lemma_shares_sum_grows(accounts, n, m - 1);
    }
}

/// The configuration of the sale. Times are in milliseconds since the epoch.
#[derive(Clone, Debug)]
pub struct Sale {
    pub royalties: Option<Royalties>,
    pub initial_royalties: Option<Royalties>,
    pub presale_start: Option<u64>,
    pub public_sale_start: Option<u64>,
    /// The most any account may mint in the public sale, if limited.
    pub allowance: Option<u16>,
    pub presale_price: Option<u128>,
    pub price: u128,
    /// The most a single call may mint, if limited.
    pub mint_rate_limit: Option<u16>,
}

impl Sale {
    /// The royalty splits, where set, are valid, and a public start, where
    /// one is set, is a moment that a date can name.
    pub open spec fn valid(&self) -> bool {
        &&& self.royalties is Some ==> self.royalties->0.valid()
        &&& self.initial_royalties is Some ==> self.initial_royalties->0.valid()
        &&& self.public_sale_start is Some ==> self.public_sale_start->0 <= MAX_DATE
    }

    /// Whether the configuration is valid.
    pub fn validate(&self) -> (ok: bool)
        ensures
            ok == self.valid(),
    {
        match &self.royalties {
            Some(royalties) => {
                if !royalties.validate() {
                    return false;
                }
            },
            None => {},
        }
        match &self.initial_royalties {
            Some(royalties) => {
                if !royalties.validate() {
                    return false;
                }
            },
            None => {},
        }
        match self.public_sale_start {
            Some(start) => start <= MAX_DATE,
            None => true,
        }
    }

    /// A sale that opened to the public at `now`, at the given price, with
    /// no presale, no limits and no royalties.
    pub fn open_at(now: u64, price: u128) -> (sale: Sale)
        ensures
            sale.royalties is None,
            sale.initial_royalties is None,
            sale.presale_start is None,
            sale.public_sale_start == Some(now),
            sale.allowance is None,
            sale.presale_price is None,
            sale.price == price,
            sale.mint_rate_limit is None,
    {
        Sale {
            royalties: None,
            initial_royalties: None,
            presale_start: None,
            public_sale_start: Some(now),
            allowance: None,
            presale_price: None,
            price,
            mint_rate_limit: None,
        }
    }
}

/// What a collection says about itself.
#[derive(Clone, Debug)]
pub struct NFTContractMetadata {
    pub spec: String,
    pub name: String,
    pub symbol: String,
    pub icon: Option<String>,
    pub base_uri: Option<String>,
    pub reference: Option<String>,
    pub reference_hash: Option<Vec<u8>>,
}

/// What is wrong with a collection's metadata.
#[derive(Clone, Copy, Debug, PartialEq, Eq, Structural)]
pub enum MetadataFault {
    /// The declared standard is not the one this library implements.
    WrongSpec,
    /// Of reference and reference hash only one is present.
    ReferenceWithoutHash,
    /// The reference hash is not a hash's length.
    HashLength,
}

impl NFTContractMetadata {
    /// What is wrong with the metadata, if anything: the standard is looked
    /// at first, then whether reference and hash come together, then the
    /// hash's length.
    pub open spec fn fault(&self) -> Option<MetadataFault> {
        if self.spec@ != nft_metadata_spec() {
            Some(MetadataFault::WrongSpec)
        } else if (self.reference is Some) != (self.reference_hash is Some) {
            Some(MetadataFault::ReferenceWithoutHash)
        } else if self.reference_hash is Some && self.reference_hash->0@.len() != HASH_LENGTH {
            Some(MetadataFault::HashLength)
        } else {
            None
        }
    }

    /// Checks the metadata.
    pub fn check(&self) -> (outcome: Result<(), MetadataFault>)
        ensures
            match outcome {
                Ok(_) => self.fault() is None,
                Err(fault) => self.fault() == Some(fault),
            },
    {
        let declared = "nft-1.0.0".to_owned();
        if self.spec != declared {
            return Err(MetadataFault::WrongSpec);
        }
        if self.reference.is_some() != self.reference_hash.is_some() {
            return Err(MetadataFault::ReferenceWithoutHash);
        }
        match &self.reference_hash {
            Some(hash) => {
                if hash.len() != HASH_LENGTH {
                    return Err(MetadataFault::HashLength);
                }
            },
            None => {},
        }
        Ok(())
    }
}

/// What an item says about itself.
#[derive(Clone, Debug)]
pub struct TokenMetadata {
    pub title: Option<String>,
    pub media: Option<String>,
    pub issued_at: Option<String>,
}

/// A minted item.
#[derive(Clone, Debug)]
pub struct Token {
    pub token_id: String,
    pub owner_id: String,
    pub metadata: TokenMetadata,
}

} // verus!
