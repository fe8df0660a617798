//! What the sale lets anyone read.

use crate::status::Status;
use crate::tenk::types::NFTContractMetadata;
use crate::tenk::minting::storage_cost;
use crate::account::{optional_text, texts};
use crate::tenk::{Contract, STORAGE_PRICE_PER_BYTE};
use vstd::prelude::*;

verus! {

/// What a link costs anyone but the owner on top of the value it carries.
pub const LINKDROP_SERVICE_FEE: u128 = 8_000_000_000_000_000_000_000;

/// The bytes of an optional hash.
pub open spec fn optional_bytes(bytes: Option<Vec<u8>>) -> Option<Seq<u8>> {
    match bytes {
        Some(b) => Some(b@),
        None => None,
    }
}

/// `copy` says what `metadata` says.
pub open spec fn same_metadata(copy: NFTContractMetadata, metadata: NFTContractMetadata) -> bool {
    &&& copy.spec@ == metadata.spec@
    &&& copy.name@ == metadata.name@
    &&& copy.symbol@ == metadata.symbol@
    &&& optional_text(copy.icon) == optional_text(metadata.icon)
    &&& optional_text(copy.base_uri) == optional_text(metadata.base_uri)
    &&& optional_text(copy.reference) == optional_text(metadata.reference)
    &&& optional_bytes(copy.reference_hash) == optional_bytes(metadata.reference_hash)
}

fn copy_text(text: &Option<String>) -> (copy: Option<String>)
    ensures
        optional_text(copy) == optional_text(*text),
{
    match text {
        Some(t) => Some(t.clone()),
        None => None,
    }
}

fn copy_bytes(bytes: &Vec<u8>) -> (copy: Vec<u8>)
    ensures
        copy@ == bytes@,
{
    let mut copy: Vec<u8> = Vec::new();
    let mut i: usize = 0;
    while i < bytes.len()
        invariant
            i <= bytes@.len(),
            copy@ == bytes@.take(i as int),
        decreases bytes@.len() - i,
    {
        copy.push(bytes[i]);
        assert(copy@ =~= bytes@.take(i + 1));
        i = i + 1;
    }
    assert(bytes@.take(i as int) =~= bytes@);
    copy
}

impl Contract {
    /// What a link costs `minter` besides the item: the value the link
    /// carries, and the service fee unless the minter is the owner.
    pub open spec fn spec_full_link_price(&self, minter: Seq<char>, linkdrop_deposit: u128) -> int {
        linkdrop_deposit + if self.spec_is_owner(minter) {
            0
        } else {
            LINKDROP_SERVICE_FEE as int
        }
    }

    /// What a link with one item costs `minter` in the given stage: the
    /// link's price, the item's cost and the storage of one item.
    pub open spec fn spec_cost_of_linkdrop(
        &self,
        status: Status,
        minter: Seq<char>,
        linkdrop_deposit: u128,
        extra_storage_in_bytes_per_token: u64,
    ) -> int {
        self.spec_full_link_price(minter, linkdrop_deposit) + self.spec_cost_per_token(status, minter)
            + STORAGE_PRICE_PER_BYTE * extra_storage_in_bytes_per_token
    }

    /// How many items `account` may still mint in the given stage, where
    /// that is limited and the account has an allowance on record: what its
    /// allowance has left, after being raised to the public cap outside the
    /// presale.
    pub open spec fn spec_remaining_allowance(&self, status: Status, account: Seq<char>) -> Option<u16> {
        if status != Status::Presale && self.sale.allowance is None {
            None
        } else if !self.whitelist@.contains_key(account) {
            None
        } else {
            let cap: u16 = if status == Status::Presale {
                0
            } else {
                self.sale.allowance->0
            };
            Some(self.whitelist@[account].spec_raise_max(cap).spec_left() as u16)
        }
    }

    /// The owner of the sale.
    pub fn owner(&self) -> (owner: String)
        ensures
            owner@ == self.owner_id@,
    {
        self.owner_id.clone()
    }

    /// The admins of the sale.
    pub fn admins(&self) -> (admins: Vec<String>)
        ensures
            texts(admins@) == texts(self.admins@),
    {
        let mut admins: Vec<String> = Vec::new();
        let mut i: usize = 0;
        while i < self.admins.len()
            invariant
                i <= self.admins@.len(),
                admins@.len() == i,
                forall|j: int| 0 <= j < i ==> (#[trigger] admins@[j])@ == self.admins@[j]@,
            decreases self.admins@.len() - i,
        {
            admins.push(self.admins[i].clone());
            i = i + 1;
        }
        assert(texts(admins@) =~= texts(self.admins@));
        admins
    }

    /// Whether `account_id` has an allowance on record.
    pub fn whitelisted(&self, account_id: &String) -> (yes: bool)
        ensures
            yes == self.whitelist@.contains_key(account_id@),
    {
        self.whitelist.contains_key(account_id)
    }

    /// What a link costs `minter` besides the item, where a link carries
    /// `linkdrop_deposit`.
    pub fn full_link_price(&self, minter: &String, linkdrop_deposit: u128) -> (price: u128)
        requires
            self.spec_full_link_price(minter@, linkdrop_deposit) <= u128::MAX,
        ensures
            price == self.spec_full_link_price(minter@, linkdrop_deposit),
    {
        if self.is_owner(minter) {
            linkdrop_deposit
        } else {
            linkdrop_deposit + LINKDROP_SERVICE_FEE
        }
    }

    /// What a link with one item costs `minter` at block time
    /// `block_timestamp`, where a link carries `linkdrop_deposit` and an item
    /// takes `extra_storage_in_bytes_per_token` bytes of storage.
    pub fn cost_of_linkdrop(
        &self,
        minter: &String,
        block_timestamp: u64,
        linkdrop_deposit: u128,
        extra_storage_in_bytes_per_token: u64,
    ) -> (cost: u128)
        requires
            self.spec_cost_of_linkdrop(
                self.spec_status(block_timestamp),
                minter@,
                linkdrop_deposit,
                extra_storage_in_bytes_per_token,
            ) <= u128::MAX,
        ensures
            cost == self.spec_cost_of_linkdrop(
                self.spec_status(block_timestamp),
                minter@,
                linkdrop_deposit,
                extra_storage_in_bytes_per_token,
            ),
    {
        let link = self.full_link_price(minter, linkdrop_deposit);
        let item = self.total_cost(1, minter, block_timestamp);
        let storage = self.token_storage_cost(extra_storage_in_bytes_per_token);
        link + item + storage
    }

    /// What `num` items cost `minter` at block time `block_timestamp`.
    pub fn total_cost(&self, num: u16, minter: &String, block_timestamp: u64) -> (cost: u128)
        requires
            num * self.spec_cost_per_token(self.spec_status(block_timestamp), minter@) <= u128::MAX,
        ensures
            cost == num * self.spec_cost_per_token(self.spec_status(block_timestamp), minter@),
    {
        let count: u128 = num as u128;
        count * self.cost_per_token(minter, block_timestamp)
    }

    /// What one item costs `minter` at block time `block_timestamp`.
    pub fn cost_per_token(&self, minter: &String, block_timestamp: u64) -> (cost: u128)
        ensures
            cost == self.spec_cost_per_token(self.spec_status(block_timestamp), minter@),
    {
        if self.is_owner(minter) {
            0
        } else {
            self.price(self.get_status(block_timestamp))
        }
    }

    /// What the storage of one item costs, where an item takes
    /// `extra_storage_in_bytes_per_token` bytes.
    pub fn token_storage_cost(&self, extra_storage_in_bytes_per_token: u64) -> (cost: u128)
        ensures
            cost == STORAGE_PRICE_PER_BYTE * extra_storage_in_bytes_per_token,
    {
        storage_cost(extra_storage_in_bytes_per_token)
    }

    /// What the collection says about itself.
    pub fn nft_metadata(&self) -> (metadata: NFTContractMetadata)
        ensures
            same_metadata(metadata, self.metadata),
    {
        NFTContractMetadata {
            spec: self.metadata.spec.clone(),
            name: self.metadata.name.clone(),
            symbol: self.metadata.symbol.clone(),
            icon: copy_text(&self.metadata.icon),
            base_uri: copy_text(&self.metadata.base_uri),
            reference: copy_text(&self.metadata.reference),
            reference_hash: match &self.metadata.reference_hash {
                Some(hash) => Some(copy_bytes(hash)),
                None => None,
            },
        }
    }

    /// How many items `account_id` may still mint at block time
    /// `block_timestamp`. `None` means that nothing limits it, or that it has
    /// no allowance on record.
    pub fn remaining_allowance(&self, account_id: &String, block_timestamp: u64) -> (remaining: Option<u16>)
        ensures
            remaining == self.spec_remaining_allowance(self.spec_status(block_timestamp), account_id@),
    {
        let allowance: u16 = if self.is_presale(block_timestamp) {
            0
        } else {
            match self.sale.allowance {
                Some(allowance) => allowance,
                None => {
                    return None;
                },
            }
        };
        match self.whitelist.get(account_id) {
            Some(stored) => Some(stored.raise_max(allowance).left()),
            None => None,
        }
    }

    /// The most a single call may mint, if limited.
    pub fn mint_rate_limit(&self) -> (limit: Option<u16>)
        ensures
            limit == self.sale.mint_rate_limit,
    {
        self.sale.mint_rate_limit
    }
}

} // verus!
