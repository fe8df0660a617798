//! Setting up a sale.

use crate::allowance::{Allowance, Whitelist};
use crate::status::{current_time_ms, NANOS_PER_MILLI};
use crate::tenk::types::{nft_metadata_spec, NFTContractMetadata, Sale};
use crate::account::optional_text;
use crate::tenk::{Contract, InitError};
use vstd::prelude::*;

verus! {

/// What stands in the way of setting up a sale, if anything: the metadata is
/// looked at first, then the sale's configuration, then the media extension,
/// which must not start with a dot.
pub open spec fn init_fault(metadata: NFTContractMetadata, sale: Sale, media_extension: Option<String>) -> Option<
    InitError,
> {
    if metadata.fault() is Some {
        Some(InitError::Metadata(metadata.fault()->0))
    } else if !sale.valid() {
        Some(InitError::InvalidSale)
    } else if media_extension is Some && media_extension->0@.len() > 0 && media_extension->0@[0] == '.' {
        Some(InitError::MediaExtension)
    } else {
        None
    }
}

/// `contract` is a sale that has just been set up with these values: nothing
/// is pending, nobody has an allowance, there are no admins and no item has
/// been minted.
pub open spec fn is_fresh(
    contract: Contract,
    owner_id: String,
    metadata: NFTContractMetadata,
    sale: Sale,
    media_extension: Option<String>,
) -> bool {
    &&& contract.owner_id == owner_id
    &&& contract.metadata == metadata
    &&& contract.pending_tokens == 0
    &&& contract.whitelist@ == Map::<Seq<char>, Allowance>::empty()
    &&& contract.sale == sale
    &&& contract.admins@ == Seq::<String>::empty()
    &&& contract.media_extension == media_extension
    &&& contract.signer_accounts@ == Seq::<String>::empty()
    &&& contract.last_id == 0
}

/// `metadata` is what a collection has if it says nothing else.
pub open spec fn is_default_metadata(metadata: NFTContractMetadata) -> bool {
    &&& metadata.spec@ == nft_metadata_spec()
    &&& metadata.name@ == "Defishards"@
    &&& metadata.symbol@ == "DFSD"@
    &&& metadata.icon is None
    &&& optional_text(metadata.base_uri) == Some(
        "https://nftstorage.link/ipfs/bafybeibfn46cld2kbxjwvhcypyts5pcsv6fl6dtou73ohcknxhvxusl65i"@,
    )
    &&& metadata.reference is None
    &&& metadata.reference_hash is None
}

/// What `near_units::near::parse` makes of `input`, or `None` where it
/// reports an error.
pub uninterp spec fn parsed_near(input: Seq<char>) -> Option<u128>;

/// Reads an amount written in the sale's currency with
/// `near_units::near::parse`. The result depends on the text alone. A text
/// without a decimal point always yields a result or an error; with one the
/// outside function may stop the program, so such texts are not passed.
#[verifier::external_body]
pub(crate) fn parse_near(input: &str) -> (amount: Option<u128>)
    requires
        !input@.contains('.'),
    ensures
        amount == parsed_near(input@),
{
    near_units::near::parse(input).ok()
}

/// The price of a sale that nobody priced, as written.
pub open spec fn default_price_text() -> Seq<char> {
    "0N"@
}

impl Contract {
    /// Sets up a sale owned by `owner_id`.
    pub fn new(owner_id: String, metadata: NFTContractMetadata, sale: Sale, media_extension: Option<String>) -> (outcome:
        Result<Contract, InitError>)
        ensures
            match outcome {
                Ok(contract) => init_fault(metadata, sale, media_extension) is None && is_fresh(
                    contract,
                    owner_id,
                    metadata,
                    sale,
                    media_extension,
                ) && contract.wf(),
                Err(e) => init_fault(metadata, sale, media_extension) == Some(e),
            },
    {
        match metadata.check() {
            Ok(_) => {},
            Err(fault) => {
                return Err(InitError::Metadata(fault));
            },
        }
        if !sale.validate() {
            return Err(InitError::InvalidSale);
        }
        match &media_extension {
            Some(ext) => {
                if ext.as_str().unicode_len() > 0 && ext.as_str().get_char(0) == '.' {
                    return Err(InitError::MediaExtension);
                }
            },
            None => {},
        }
        Ok(
            Contract {
                owner_id,
                metadata,
                pending_tokens: 0,
                whitelist: Whitelist::new(),
                sale,
                admins: Vec::new(),
                media_extension,
                signer_accounts: Vec::new(),
                last_id: 0,
            },
        )
    }

    /// Sets up a sale with the default metadata that opens to the public at
    /// block time `block_timestamp`, at the given price.
    pub fn with_default_meta(
        owner_id: String,
        media_extension: Option<String>,
        block_timestamp: u64,
        price: u128,
    ) -> (outcome: Result<Contract, InitError>)
        ensures
            outcome is Ok <==> !(media_extension is Some && media_extension->0@.len() > 0
                && media_extension->0@[0] == '.'),
            outcome is Err ==> outcome->Err_0 == InitError::MediaExtension,
            outcome matches Ok(contract) ==> {
                &&& contract.owner_id == owner_id
                &&& is_default_metadata(contract.metadata)
                &&& contract.pending_tokens == 0
                &&& contract.whitelist@ == Map::<Seq<char>, Allowance>::empty()
                &&& contract.sale.royalties is None
                &&& contract.sale.initial_royalties is None
                &&& contract.sale.presale_start is None
                &&& contract.sale.public_sale_start == Some(block_timestamp / NANOS_PER_MILLI)
                &&& contract.sale.allowance is None
                &&& contract.sale.presale_price is None
                &&& contract.sale.price == price
                &&& contract.sale.mint_rate_limit is None
                &&& contract.admins@ == Seq::<String>::empty()
                &&& contract.media_extension == media_extension
                &&& contract.signer_accounts@ == Seq::<String>::empty()
                &&& contract.last_id == 0
                &&& contract.wf()
            },
    {
        let metadata = NFTContractMetadata {
            spec: "nft-1.0.0".to_owned(),
            name: "Defishards".to_owned(),
            symbol: "DFSD".to_owned(),
            base_uri: Some(
                "https://nftstorage.link/ipfs/bafybeibfn46cld2kbxjwvhcypyts5pcsv6fl6dtou73ohcknxhvxusl65i".to_owned(),
            ),
            icon: None,
            reference: None,
            reference_hash: None,
        };
        let sale = Sale::open_at(current_time_ms(block_timestamp), price);
        Self::new(owner_id, metadata, sale, media_extension)
    }

    /// Sets up a sale with the default metadata that opens to the public at
    /// block time `block_timestamp`, free of charge: the price is what the
    /// text of [`default_price_text`] reads as.
    pub fn new_default_meta(owner_id: String, media_extension: Option<String>, block_timestamp: u64) -> (outcome:
        Result<Contract, InitError>)
        ensures
            outcome is Ok <==> parsed_near(default_price_text()) is Some && !(media_extension is Some
                && media_extension->0@.len() > 0 && media_extension->0@[0] == '.'),
            outcome is Err ==> outcome->Err_0 == (if parsed_near(default_price_text()) is None {
                InitError::Price
            } else {
                InitError::MediaExtension
            }),
            outcome matches Ok(contract) ==> {
                &&& contract.owner_id == owner_id
                &&& is_default_metadata(contract.metadata)
                &&& contract.pending_tokens == 0
                &&& contract.whitelist@ == Map::<Seq<char>, Allowance>::empty()
                &&& contract.sale.royalties is None
                &&& contract.sale.initial_royalties is None
                &&& contract.sale.presale_start is None
                &&& contract.sale.public_sale_start == Some(block_timestamp / NANOS_PER_MILLI)
                &&& contract.sale.allowance is None
                &&& contract.sale.presale_price is None
                &&& Some(contract.sale.price) == parsed_near(default_price_text())
                &&& contract.sale.mint_rate_limit is None
                &&& contract.admins@ == Seq::<String>::empty()
                &&& contract.media_extension == media_extension
                &&& contract.signer_accounts@ == Seq::<String>::empty()
                &&& contract.last_id == 0
                &&& contract.wf()
            },
    {
        proof {
            reveal_strlit("0N");
        }
        match parse_near("0N") {
            Some(price) => Self::with_default_meta(owner_id, media_extension, block_timestamp, price),
            None => Err(InitError::Price),
        }
    }
}

} // verus!
