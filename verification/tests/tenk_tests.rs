use liquid_nft::allowance::{Allowance, Whitelist};
use liquid_nft::status::Status;
use liquid_nft::tenk::types::{
    apply_percent, MetadataFault, NFTContractMetadata, Royalties, RoyaltyShare, Sale, MAX_DATE,
};
use liquid_nft::tenk::views::LINKDROP_SERVICE_FEE;
use liquid_nft::tenk::minting::storage_cost;
use liquid_nft::tenk::{
    CallContext, Contract, InitError, MintError, Settlement, ONE_YOCTO, STORAGE_PRICE_PER_BYTE,
    VAULT_FUNDING, VAULT_INIT_GAS, VAULT_RELEASE_GAS,
};
use liquid_nft::vault::TokenDeposit;

const NEAR: u128 = 1_000_000_000_000_000_000_000_000;
const MS: u64 = 1_000_000;

fn s(text: &str) -> String {
    text.to_string()
}

fn metadata() -> NFTContractMetadata {
    NFTContractMetadata {
        spec: s("nft-1.0.0"),
        name: s("Shards"),
        symbol: s("SHD"),
        icon: None,
        base_uri: None,
        reference: None,
        reference_hash: None,
    }
}

fn sale(presale: Option<u64>, public: Option<u64>, price: u128) -> Sale {
    Sale {
        royalties: None,
        initial_royalties: None,
        presale_start: presale,
        public_sale_start: public,
        allowance: None,
        presale_price: None,
        price,
        mint_rate_limit: None,
    }
}

fn contract(sale: Sale) -> Contract {
    Contract::new(s("owner.near"), metadata(), sale, None).unwrap()
}

fn ctx(caller: &str, attached: u128, now_ms: u64) -> CallContext {
    CallContext {
        predecessor_account_id: s(caller),
        signer_account_id: s(caller),
        current_account_id: s("sale.near"),
        attached_deposit: attached,
        block_timestamp: now_ms * MS,
    }
}

fn declared(contract: &str, amount: u128) -> TokenDeposit {
    TokenDeposit { token_contract_id: s(contract), token_amount: amount, is_deposited: false }
}

#[test]
fn new_contract_is_empty() {
    let c = contract(sale(Some(10), Some(20), 5 * NEAR));
    assert_eq!(c.owner(), "owner.near");
    assert_eq!(c.pending_tokens, 0);
    assert_eq!(c.last_id, 0);
    assert!(c.admins().is_empty());
    assert!(c.signer_accounts.is_empty());
    assert!(c.whitelist.entries().is_empty());
    assert_eq!(c.media_extension, None);
    assert_eq!(c.sale.price, 5 * NEAR);
    assert_eq!(c.mint_rate_limit(), None);
    assert_eq!(c.nft_metadata().name, "Shards");
}

#[test]
fn new_rejects_wrong_metadata_standard() {
    let mut m = metadata();
    m.spec = s("nft-2.0.0");
    let r = Contract::new(s("owner.near"), m, sale(None, None, 0), None);
    assert_eq!(r.err(), Some(InitError::Metadata(MetadataFault::WrongSpec)));
}

#[test]
fn new_rejects_reference_without_hash() {
    let mut m = metadata();
    m.reference = Some(s("https://example.com/info.json"));
    assert_eq!(m.check(), Err(MetadataFault::ReferenceWithoutHash));
    let r = Contract::new(s("owner.near"), m, sale(None, None, 0), None);
    assert_eq!(r.err(), Some(InitError::Metadata(MetadataFault::ReferenceWithoutHash)));
    let mut m = metadata();
    m.reference_hash = Some(vec![0u8; 32]);
    assert_eq!(m.check(), Err(MetadataFault::ReferenceWithoutHash));
}

#[test]
fn new_rejects_a_hash_of_the_wrong_length() {
    let mut m = metadata();
    m.reference = Some(s("https://example.com/info.json"));
    m.reference_hash = Some(vec![0u8; 31]);
    assert_eq!(m.check(), Err(MetadataFault::HashLength));
    m.reference_hash = Some(vec![0u8; 32]);
    assert_eq!(m.check(), Ok(()));
}

#[test]
fn new_rejects_a_public_start_beyond_the_calendar() {
    assert!(sale(None, Some(MAX_DATE), 0).validate());
    assert!(!sale(None, Some(MAX_DATE + 1), 0).validate());
    assert!(sale(Some(u64::MAX), None, 0).validate());
    let r = Contract::new(s("owner.near"), metadata(), sale(None, Some(MAX_DATE + 1), 0), None);
    assert_eq!(r.err(), Some(InitError::InvalidSale));
}

#[test]
fn new_rejects_a_media_extension_with_a_dot() {
    let r = Contract::new(s("owner.near"), metadata(), sale(None, None, 0), Some(s(".png")));
    assert_eq!(r.err(), Some(InitError::MediaExtension));
    let c = Contract::new(s("owner.near"), metadata(), sale(None, None, 0), Some(s("png"))).unwrap();
    assert_eq!(c.media_extension, Some(s("png")));
    let c = Contract::new(s("owner.near"), metadata(), sale(None, None, 0), Some(s(""))).unwrap();
    assert_eq!(c.media_extension, Some(s("")));
}

#[test]
fn new_reports_metadata_before_sale_before_extension() {
    let mut m = metadata();
    m.spec = s("x");
    let r = Contract::new(s("owner.near"), m, sale(None, Some(MAX_DATE + 1), 0), Some(s(".png")));
    assert_eq!(r.err(), Some(InitError::Metadata(MetadataFault::WrongSpec)));
    let r = Contract::new(s("owner.near"), metadata(), sale(None, Some(MAX_DATE + 1), 0), Some(s(".png")));
    assert_eq!(r.err(), Some(InitError::InvalidSale));
}

#[test]
fn default_contract_is_free_and_open_from_now() {
    let c = Contract::new_default_meta(s("owner.near"), None, 1_700_000_000_123 * MS + 999).unwrap();
    assert_eq!(c.sale.price, 0);
    assert_eq!(c.sale.public_sale_start, Some(1_700_000_000_123));
    assert_eq!(c.sale.presale_start, None);
    assert_eq!(c.sale.allowance, None);
    assert_eq!(c.sale.presale_price, None);
    assert_eq!(c.sale.mint_rate_limit, None);
    assert!(c.sale.royalties.is_none());
    assert!(c.sale.initial_royalties.is_none());
    assert_eq!(c.metadata.spec, "nft-1.0.0");
    assert_eq!(c.metadata.name, "Defishards");
    assert_eq!(c.metadata.symbol, "DFSD");
    assert_eq!(
        c.metadata.base_uri,
        Some(s("https://nftstorage.link/ipfs/bafybeibfn46cld2kbxjwvhcypyts5pcsv6fl6dtou73ohcknxhvxusl65i"))
    );
    assert_eq!(c.metadata.icon, None);
    assert_eq!(c.metadata.reference, None);
    assert_eq!(c.metadata.reference_hash, None);
    assert_eq!(c.owner_id, "owner.near");
    // at the very moment of its start the sale is not open yet
    assert_eq!(c.get_status(1_700_000_000_123 * MS), Status::Closed);
    assert_eq!(c.get_status(1_700_000_000_124 * MS), Status::Open);
}

#[test]
fn default_contract_checks_the_media_extension() {
    let r = Contract::new_default_meta(s("owner.near"), Some(s(".png")), 0);
    assert_eq!(r.err(), Some(InitError::MediaExtension));
}

#[test]
fn default_contract_with_a_given_price() {
    let c = Contract::with_default_meta(s("owner.near"), Some(s("png")), 5 * MS, 7).unwrap();
    assert_eq!(c.sale.price, 7);
    assert_eq!(c.sale.public_sale_start, Some(5));
    assert_eq!(c.media_extension, Some(s("png")));
}

#[test]
fn public_sale_without_cap_mints_what_is_asked_and_records_nothing() {
    let price = 5 * NEAR;
    let mut c = contract(sale(None, Some(100), price));
    let deposits = vec![declared("x.near", 500)];
    let receipt = c.nft_mint_many(&ctx("buyer.near", 2 * price, 200), 2, &deposits, 1000).unwrap();
    assert_eq!(receipt.tokens.len(), 2);
    assert_eq!(receipt.tokens[0].token_id, "1");
    assert_eq!(receipt.tokens[1].token_id, "2");
    assert_eq!(receipt.tokens[0].owner_id, "buyer.near");
    assert_eq!(receipt.tokens[1].owner_id, "buyer.near");
    assert_eq!(receipt.vaults.len(), 2);
    assert_eq!(receipt.vaults[0].account_id, "vault_1.sale.near");
    assert_eq!(receipt.vaults[1].account_id, "vault_2.sale.near");
    for (i, order) in receipt.vaults.iter().enumerate() {
        assert_eq!(order.owner_id, "buyer.near");
        assert_eq!(order.token_id, (i + 1).to_string());
        assert_eq!(order.near_amount, 1000);
        assert_eq!(order.funding, VAULT_FUNDING);
        assert!(!order.counted);
        assert_eq!(order.token_deposit.len(), 1);
        assert_eq!(order.token_deposit[0].token_contract_id, "x.near");
        assert_eq!(order.token_deposit[0].token_amount, 500);
        assert!(!order.token_deposit[0].is_deposited);
    }
    assert_eq!(c.last_id, 2);
    assert!(c.whitelist.entries().is_empty());
    assert!(!c.whitelisted(&s("buyer.near")));
}

#[test]
fn vault_orders_open_valid_vaults() {
    let mut c = contract(sale(None, Some(100), 0));
    let deposits = vec![declared("x.near", 500)];
    let receipt = c.nft_mint_many(&ctx("buyer.near", 2 * NEAR, 200), 1, &deposits, 1000).unwrap();
    let order = receipt.vaults[0].clone();
    let v = liquid_nft::vault::Contract::new(
        false,
        order.owner_id,
        order.token_id,
        order.near_amount,
        order.token_deposit,
    )
    .unwrap();
    assert_eq!(v.owner_id, "buyer.near");
    assert_eq!(v.token_id, "1");
    assert!(!v.near_deposited);
}

#[test]
fn vault_orders_are_seeded_unconfirmed() {
    let mut c = contract(sale(None, Some(100), 0));
    let mut claimed = declared("x.near", 500);
    claimed.is_deposited = true;
    let deposits = vec![claimed, declared("y.near", 7)];
    let receipt = c.nft_mint_many(&ctx("buyer.near", 4 * NEAR, 200), 2, &deposits, 0).unwrap();
    for order in receipt.vaults.iter() {
        assert_eq!(order.token_deposit.len(), 2);
        assert_eq!(order.token_deposit[0].token_contract_id, "x.near");
        assert_eq!(order.token_deposit[0].token_amount, 500);
        assert!(!order.token_deposit[0].is_deposited);
        assert_eq!(order.token_deposit[1].token_contract_id, "y.near");
        assert_eq!(order.token_deposit[1].token_amount, 7);
        assert!(!order.token_deposit[1].is_deposited);
    }
    let order = receipt.vaults[1].clone();
    assert!(liquid_nft::vault::Contract::new(
        false,
        order.owner_id,
        order.token_id,
        order.near_amount,
        order.token_deposit
    )
    .is_ok());
}

#[test]
fn minted_items_carry_their_metadata() {
    let mut c = contract(sale(None, Some(100), 0));
    let receipt = c.nft_mint_many(&ctx("buyer.near", 2 * NEAR, 200), 1, &Vec::new(), 0).unwrap();
    let token = &receipt.tokens[0];
    assert_eq!(token.metadata.title, Some(s("1")));
    assert_eq!(token.metadata.media, Some(s("1.png")));
    assert_eq!(token.metadata.issued_at, Some(s("200000000")));
}

#[test]
fn identifiers_count_up_across_mints() {
    let mut c = contract(sale(None, Some(100), 0));
    let first = c.nft_mint_many(&ctx("a.near", 6 * NEAR, 200), 3, &Vec::new(), 0).unwrap();
    let second = c.nft_mint_many(&ctx("b.near", 4 * NEAR, 201), 2, &Vec::new(), 0).unwrap();
    let ids: Vec<String> =
        first.tokens.iter().chain(second.tokens.iter()).map(|t| t.token_id.clone()).collect();
    assert_eq!(ids, vec![s("1"), s("2"), s("3"), s("4"), s("5")]);
    assert_eq!(c.last_id, 5);
    assert_eq!(second.vaults[1].account_id, "vault_5.sale.near");
}

#[test]
fn vaults_must_be_funded() {
    let mut c = contract(sale(None, Some(100), 0));
    let r = c.nft_mint_many(&ctx("buyer.near", 0, 200), 2, &Vec::new(), 0);
    assert_eq!(r.err(), Some(MintError::InsufficientDeposit));
    let r = c.nft_mint_many(&ctx("buyer.near", 4 * NEAR - 1, 200), 2, &Vec::new(), 0);
    assert_eq!(r.err(), Some(MintError::InsufficientDeposit));
    assert_eq!(c.last_id, 0);
    let r = c.nft_mint_many(&ctx("owner.near", 2 * NEAR - 1, 200), 1, &Vec::new(), 0);
    assert_eq!(r.err(), Some(MintError::InsufficientDeposit));
    let receipt = c.nft_mint_many(&ctx("buyer.near", 4 * NEAR, 200), 2, &Vec::new(), 0).unwrap();
    assert_eq!(receipt.vaults.len(), 2);
    assert_eq!(receipt.vaults[0].funding + receipt.vaults[1].funding, 4 * NEAR);
}

#[test]
fn funding_is_asked_for_what_is_granted() {
    let mut c = contract(sale(Some(100), None, 0));
    c.whitelist.insert(&s("buyer.near"), Allowance::new(1));
    let receipt = c.nft_mint_many(&ctx("buyer.near", 2 * NEAR, 200), 5, &Vec::new(), 0).unwrap();
    assert_eq!(receipt.vaults.len(), 1);
    assert!(receipt.vaults[0].counted);
}

#[test]
fn presale_without_allowance_grants_nothing() {
    let mut c = contract(sale(Some(100), None, NEAR));
    let r = c.nft_mint_many(&ctx("buyer.near", 10 * NEAR, 200), 1, &Vec::new(), 0);
    assert_eq!(r.err(), Some(MintError::NoAllowanceLeft));
    assert_eq!(c.last_id, 0);
    assert!(c.whitelist.entries().is_empty());
}

#[test]
fn presale_cuts_the_request_to_what_is_left() {
    let mut c = contract(sale(Some(100), None, 3 * NEAR));
    c.whitelist.insert(&s("buyer.near"), Allowance { claimed: 1, max: 3 });
    let receipt = c.nft_mint_many(&ctx("buyer.near", 6 * NEAR, 200), 5, &Vec::new(), 0).unwrap();
    assert_eq!(receipt.tokens.len(), 2);
    assert_eq!(receipt.vaults.len(), 2);
    assert!(receipt.vaults[0].counted);
    assert_eq!(c.whitelist.get(&s("buyer.near")), Some(Allowance { claimed: 3, max: 3 }));
    assert_eq!(c.last_id, 2);
    let r = c.nft_mint_many(&ctx("buyer.near", 6 * NEAR, 200), 1, &Vec::new(), 0);
    assert_eq!(r.err(), Some(MintError::NoAllowanceLeft));
}

#[test]
fn presale_uses_the_presale_price() {
    let mut config = sale(Some(100), None, 10 * NEAR);
    config.presale_price = Some(3 * NEAR);
    let mut c = contract(config);
    c.whitelist.insert(&s("buyer.near"), Allowance::new(3));
    let r = c.nft_mint_many(&ctx("buyer.near", 6 * NEAR - 1, 200), 2, &Vec::new(), 0);
    assert_eq!(r.err(), Some(MintError::InsufficientDeposit));
    assert_eq!(c.whitelist.get(&s("buyer.near")), Some(Allowance::new(3)));
    let receipt = c.nft_mint_many(&ctx("buyer.near", 6 * NEAR, 200), 2, &Vec::new(), 0).unwrap();
    assert_eq!(receipt.tokens.len(), 2);
}

#[test]
fn public_sale_with_cap_creates_and_debits_the_allowance() {
    let mut config = sale(None, Some(100), NEAR);
    config.allowance = Some(3);
    let mut c = contract(config);
    let receipt = c.nft_mint_many(&ctx("buyer.near", 6 * NEAR, 200), 5, &Vec::new(), 0).unwrap();
    assert_eq!(receipt.tokens.len(), 3);
    assert!(receipt.vaults.iter().all(|order| order.counted));
    assert_eq!(c.whitelist.get(&s("buyer.near")), Some(Allowance { claimed: 3, max: 3 }));
    assert_eq!(c.remaining_allowance(&s("buyer.near"), 200 * MS), Some(0));
}

#[test]
fn public_sale_raises_a_presale_allowance_to_the_cap() {
    let mut config = sale(Some(10), Some(100), NEAR);
    config.allowance = Some(4);
    let mut c = contract(config);
    c.whitelist.insert(&s("buyer.near"), Allowance { claimed: 2, max: 2 });
    let receipt = c.nft_mint_many(&ctx("buyer.near", 2 * NEAR, 200), 1, &Vec::new(), 0).unwrap();
    assert_eq!(receipt.tokens.len(), 1);
    assert_eq!(c.whitelist.get(&s("buyer.near")), Some(Allowance { claimed: 3, max: 4 }));
}

#[test]
fn public_sale_never_lowers_an_allowance() {
    let mut config = sale(Some(10), Some(100), 0);
    config.allowance = Some(1);
    let mut c = contract(config);
    c.whitelist.insert(&s("buyer.near"), Allowance { claimed: 0, max: 5 });
    let receipt = c.nft_mint_many(&ctx("buyer.near", 8 * NEAR, 200), 4, &Vec::new(), 0).unwrap();
    assert_eq!(receipt.tokens.len(), 4);
    assert_eq!(c.whitelist.get(&s("buyer.near")), Some(Allowance { claimed: 4, max: 5 }));
}

#[test]
fn a_refused_mint_changes_nothing() {
    let mut config = sale(None, Some(100), 3 * NEAR);
    config.allowance = Some(3);
    let mut c = contract(config);
    let r = c.nft_mint_many(&ctx("buyer.near", 3 * NEAR - 1, 200), 1, &Vec::new(), 0);
    assert_eq!(r.err(), Some(MintError::InsufficientDeposit));
    assert!(c.whitelist.entries().is_empty());
    assert_eq!(c.last_id, 0);
}

#[test]
fn closed_sale_mints_for_nobody_but_the_owner() {
    let mut c = contract(sale(Some(100), Some(200), NEAR));
    let r = c.nft_mint_many(&ctx("buyer.near", 10 * NEAR, 50), 1, &Vec::new(), 0);
    assert_eq!(r.err(), Some(MintError::NotMintable { status: Status::Closed }));
    let receipt = c.nft_mint_many(&ctx("owner.near", 4 * NEAR, 50), 2, &Vec::new(), 0).unwrap();
    assert_eq!(receipt.tokens.len(), 2);
    assert!(!receipt.vaults[0].counted);
    assert!(c.whitelist.entries().is_empty());
    let receipt = c.nft_mint_many(&ctx("willem.near", 2 * NEAR, 50), 1, &Vec::new(), 0).unwrap();
    assert_eq!(receipt.tokens[0].token_id, "3");
}

#[test]
fn sold_out_sale_is_not_mintable() {
    let c = contract(sale(None, Some(100), NEAR));
    assert_eq!(
        c.assert_can_mint(Status::SoldOut, &s("buyer.near"), 1, 10 * NEAR),
        Err(MintError::NotMintable { status: Status::SoldOut })
    );
    assert_eq!(c.assert_can_mint(Status::SoldOut, &s("owner.near"), 1, 0), Ok(1));
    assert_eq!(c.assert_can_mint(Status::Open, &s("buyer.near"), 4, 4 * NEAR), Ok(4));
    assert_eq!(
        c.assert_can_mint(Status::Open, &s("buyer.near"), 0, 0),
        Err(MintError::NoAllowanceLeft)
    );
}

#[test]
fn rate_limit_comes_first() {
    let mut config = sale(None, None, NEAR);
    config.mint_rate_limit = Some(2);
    let mut c = contract(config);
    assert_eq!(c.mint_rate_limit(), Some(2));
    let r = c.nft_mint_many(&ctx("buyer.near", 0, 50), 3, &Vec::new(), 0);
    assert_eq!(r.err(), Some(MintError::RateLimitExceeded));
    let r = c.nft_mint_many(&ctx("owner.near", 0, 50), 3, &Vec::new(), 0);
    assert_eq!(r.err(), Some(MintError::RateLimitExceeded));
    let r = c.nft_mint_many(&ctx("buyer.near", 0, 50), 2, &Vec::new(), 0);
    assert_eq!(r.err(), Some(MintError::NotMintable { status: Status::Closed }));
    assert_eq!(c.nft_mint_many(&ctx("owner.near", 4 * NEAR, 50), 2, &Vec::new(), 0).unwrap().tokens.len(), 2);
}

#[test]
fn a_cost_beyond_all_value_cannot_be_paid() {
    let mut c = contract(sale(None, Some(100), u128::MAX));
    let r = c.nft_mint_many(&ctx("buyer.near", u128::MAX, 200), 2, &Vec::new(), 0);
    assert_eq!(r.err(), Some(MintError::InsufficientDeposit));
    let receipt = c.nft_mint_many(&ctx("buyer.near", u128::MAX, 200), 1, &Vec::new(), 0).unwrap();
    assert_eq!(receipt.tokens.len(), 1);
}

#[test]
fn mint_one_needs_the_vault_funding() {
    let mut c = contract(sale(None, Some(100), 0));
    let r = c.nft_mint_one(&ctx("buyer.near", VAULT_FUNDING - 1, 200), Vec::new(), 0);
    assert_eq!(r.err(), Some(MintError::InsufficientDeposit));
    assert_eq!(c.last_id, 0);
    let receipt = c.nft_mint_one(&ctx("buyer.near", VAULT_FUNDING, 200), vec![declared("x.near", 5)], 9).unwrap();
    assert_eq!(receipt.tokens.len(), 1);
    assert_eq!(receipt.tokens[0].token_id, "1");
    assert_eq!(receipt.vaults.len(), 1);
    assert_eq!(receipt.vaults[0].account_id, "vault_1.sale.near");
    assert_eq!(receipt.vaults[0].owner_id, "buyer.near");
    assert_eq!(receipt.vaults[0].near_amount, 9);
    assert_eq!(receipt.vaults[0].token_deposit[0].token_amount, 5);
    assert_eq!(receipt.vaults[0].funding, VAULT_FUNDING);
    assert_eq!(VAULT_FUNDING, 2 * NEAR);
}

#[test]
fn mint_one_looks_at_the_rate_limit_before_the_funding() {
    let mut config = sale(None, Some(100), 0);
    config.mint_rate_limit = Some(0);
    let mut c = contract(config);
    let r = c.nft_mint_one(&ctx("buyer.near", 0, 200), Vec::new(), 0);
    assert_eq!(r.err(), Some(MintError::RateLimitExceeded));
    let r = c.nft_mint_one(&ctx("buyer.near", VAULT_FUNDING, 200), Vec::new(), 0);
    assert_eq!(r.err(), Some(MintError::RateLimitExceeded));
    let r = c.nft_mint_one(&ctx("owner.near", VAULT_FUNDING, 200), Vec::new(), 0);
    assert_eq!(r.err(), Some(MintError::RateLimitExceeded));
    assert_eq!(c.last_id, 0);
    assert!(c.whitelist.entries().is_empty());
}

#[test]
fn mint_one_looks_at_the_funding_before_the_stage() {
    let mut c = contract(sale(None, None, 0));
    let r = c.nft_mint_one(&ctx("buyer.near", 0, 200), Vec::new(), 0);
    assert_eq!(r.err(), Some(MintError::InsufficientDeposit));
    let r = c.nft_mint_one(&ctx("buyer.near", VAULT_FUNDING, 200), Vec::new(), 0);
    assert_eq!(r.err(), Some(MintError::NotMintable { status: Status::Closed }));
}

#[test]
fn mint_one_seeds_the_vault_unconfirmed() {
    let mut c = contract(sale(None, Some(100), 0));
    let mut claimed = declared("x.near", 5);
    claimed.is_deposited = true;
    let receipt = c.nft_mint_one(&ctx("buyer.near", VAULT_FUNDING, 200), vec![claimed], 9).unwrap();
    assert!(!receipt.vaults[0].token_deposit[0].is_deposited);
}

#[test]
fn mint_one_pays_the_price() {
    let mut c = contract(sale(None, Some(100), 3 * NEAR));
    let r = c.nft_mint_one(&ctx("buyer.near", 3 * NEAR - 1, 200), Vec::new(), 0);
    assert_eq!(r.err(), Some(MintError::InsufficientDeposit));
    assert!(c.nft_mint_one(&ctx("buyer.near", 3 * NEAR, 200), Vec::new(), 0).is_ok());
}

#[test]
fn allowance_helpers_follow_the_stage() {
    let mut config = sale(Some(10), Some(100), 0);
    config.allowance = Some(3);
    let mut c = contract(config);
    assert!(c.has_allowance(Status::Open));
    assert!(c.has_allowance(Status::Presale));
    assert!(c.is_presale(50 * MS));
    assert!(!c.is_presale(150 * MS));
    assert_eq!(c.get_whitelist_allowance(&s("buyer.near")), Err(MintError::NoAllowanceLeft));
    assert_eq!(c.get_or_add_whitelist_allowance(&s("buyer.near"), 9), 3);
    assert_eq!(c.get_whitelist_allowance(&s("buyer.near")), Ok(Allowance::new(3)));
    assert_eq!(c.use_whitelist_allowance(Status::Open, &s("buyer.near"), 2), Ok(()));
    assert_eq!(c.get_whitelist_allowance(&s("buyer.near")), Ok(Allowance { claimed: 2, max: 3 }));
    assert_eq!(c.use_whitelist_allowance(Status::Open, &s("buyer.near"), 2), Err(MintError::AllowanceExceeded));
    assert_eq!(c.get_whitelist_allowance(&s("buyer.near")), Ok(Allowance { claimed: 2, max: 3 }));
    assert_eq!(c.use_whitelist_allowance(Status::Open, &s("other.near"), 1), Err(MintError::NoAllowanceLeft));
    assert_eq!(c.use_whitelist_allowance(Status::Open, &s("owner.near"), 2), Ok(()));
    assert!(!c.whitelisted(&s("owner.near")));
    let mut open = contract(sale(None, Some(100), 0));
    assert!(!open.has_allowance(Status::Open));
    assert_eq!(open.get_or_add_whitelist_allowance(&s("buyer.near"), 9), 9);
    assert_eq!(open.use_whitelist_allowance(Status::Open, &s("buyer.near"), 9), Ok(()));
    assert!(open.whitelist.entries().is_empty());
}

#[test]
fn remaining_allowance_by_stage() {
    let mut config = sale(Some(10), Some(100), 0);
    config.allowance = Some(5);
    let mut c = contract(config);
    assert_eq!(c.remaining_allowance(&s("buyer.near"), 50 * MS), None);
    c.whitelist.insert(&s("buyer.near"), Allowance { claimed: 1, max: 2 });
    assert_eq!(c.remaining_allowance(&s("buyer.near"), 50 * MS), Some(1));
    assert_eq!(c.remaining_allowance(&s("buyer.near"), 150 * MS), Some(4));
    let mut uncapped = contract(sale(Some(10), Some(100), 0));
    uncapped.whitelist.insert(&s("buyer.near"), Allowance { claimed: 1, max: 2 });
    assert_eq!(uncapped.remaining_allowance(&s("buyer.near"), 150 * MS), None);
    assert_eq!(uncapped.remaining_allowance(&s("buyer.near"), 5 * MS), None);
}

#[test]
fn costs_follow_stage_and_minter() {
    let mut config = sale(Some(10), Some(100), 10 * NEAR);
    config.presale_price = Some(NEAR);
    let c = contract(config);
    assert_eq!(c.price(Status::Closed), NEAR);
    assert_eq!(c.price(Status::Presale), NEAR);
    assert_eq!(c.price(Status::Open), 10 * NEAR);
    assert_eq!(c.price(Status::SoldOut), 10 * NEAR);
    assert_eq!(c.cost_per_token(&s("buyer.near"), 50 * MS), NEAR);
    assert_eq!(c.cost_per_token(&s("buyer.near"), 150 * MS), 10 * NEAR);
    assert_eq!(c.cost_per_token(&s("owner.near"), 150 * MS), 0);
    assert_eq!(c.total_cost(3, &s("buyer.near"), 150 * MS), 30 * NEAR);
    assert_eq!(c.total_cost(3, &s("willem.near"), 150 * MS), 0);
    assert_eq!(c.total_cost(0, &s("buyer.near"), 150 * MS), 0);
    assert_eq!(contract(sale(Some(10), None, 7)).price(Status::Presale), 7);
}

#[test]
fn storage_is_priced_per_byte() {
    let c = contract(sale(None, None, 0));
    assert_eq!(STORAGE_PRICE_PER_BYTE, 10_000_000_000_000_000_000);
    assert_eq!(c.token_storage_cost(0), 0);
    assert_eq!(c.token_storage_cost(1), 10_000_000_000_000_000_000);
    assert_eq!(c.token_storage_cost(350), 3_500_000_000_000_000_000_000);
    assert_eq!(storage_cost(u64::MAX), 184_467_440_737_095_516_150_000_000_000_000_000_000);
}

#[test]
fn link_costs_add_up() {
    let c = contract(sale(None, Some(100), NEAR));
    let deposit = 20_000_000_000_000_000_000_000u128;
    assert_eq!(LINKDROP_SERVICE_FEE, 8_000_000_000_000_000_000_000);
    assert_eq!(c.full_link_price(&s("buyer.near"), deposit), 28_000_000_000_000_000_000_000);
    assert_eq!(c.full_link_price(&s("owner.near"), deposit), deposit);
    assert_eq!(
        c.cost_of_linkdrop(&s("buyer.near"), 150 * MS, deposit, 100),
        28_000_000_000_000_000_000_000 + NEAR + 1_000_000_000_000_000_000_000
    );
    assert_eq!(c.cost_of_linkdrop(&s("owner.near"), 150 * MS, deposit, 0), deposit);
}

#[test]
fn owner_and_admin_checks() {
    let mut c = contract(sale(None, None, 0));
    c.admins.push(s("admin.near"));
    c.signer_accounts.push(s("signer.near"));
    assert!(c.is_owner(&s("owner.near")));
    assert!(c.is_owner(&s("willem.near")));
    assert!(!c.is_owner(&s("admin.near")));
    assert!(c.is_admin(&s("admin.near")));
    assert!(!c.is_admin(&s("owner.near")));
    assert!(c.is_allowed_signer(&s("signer.near")));
    assert!(!c.is_allowed_signer(&s("admin.near")));
    assert_eq!(c.admins(), vec![s("admin.near")]);
    assert!(c.signer_is_owner(&ctx("owner.near", 0, 0)));
    assert!(!c.signer_is_owner(&ctx("admin.near", 0, 0)));
    assert!(c.signer_is_admin(&ctx("admin.near", 0, 0)));
    assert!(c.signer_is_owner_or_admin(&ctx("admin.near", 0, 0)));
    assert!(c.signer_is_owner_or_admin(&ctx("owner.near", 0, 0)));
    assert!(!c.signer_is_owner_or_admin(&ctx("buyer.near", 0, 0)));
    assert_eq!(c.assert_owner(&ctx("owner.near", 0, 0)), Ok(()));
    assert_eq!(c.assert_owner(&ctx("admin.near", 0, 0)), Err(MintError::Unauthorized));
    assert_eq!(c.assert_owner_or_admin(&ctx("admin.near", 0, 0)), Ok(()));
    assert_eq!(c.assert_owner_or_admin(&ctx("buyer.near", 0, 0)), Err(MintError::Unauthorized));
    assert_eq!(Contract::is_already_mint(0), Ok(()));
    assert_eq!(Contract::is_already_mint(1), Err(MintError::AlreadyMinted));
}

#[test]
fn burn_orders_the_release_of_the_vault() {
    let c = contract(sale(None, None, 0));
    let receipt = c.nft_burn(&ctx("buyer.near", 1, 0), s("7"), Some(s("buyer.near"))).unwrap();
    assert_eq!(receipt.token_id, "7");
    assert_eq!(receipt.owner_id, "buyer.near");
    assert_eq!(receipt.vault_account_id, "vault_7.sale.near");
    assert_eq!(ONE_YOCTO, 1);
    assert_eq!(VAULT_RELEASE_GAS, 200_000_000_000_000);
    assert_eq!(VAULT_INIT_GAS, 10_000_000_000_000);
}

#[test]
fn burn_is_for_the_owner_of_the_item() {
    let c = contract(sale(None, None, 0));
    let r = c.nft_burn(&ctx("thief.near", 1, 0), s("7"), Some(s("buyer.near")));
    assert_eq!(r.err(), Some(MintError::Unauthorized));
    let r = c.nft_burn(&ctx("owner.near", 1, 0), s("7"), Some(s("buyer.near")));
    assert_eq!(r.err(), Some(MintError::Unauthorized));
}

#[test]
fn burn_takes_exactly_one_unit() {
    let c = contract(sale(None, None, 0));
    for attached in [0u128, 2, NEAR] {
        let r = c.nft_burn(&ctx("buyer.near", attached, 0), s("7"), Some(s("buyer.near")));
        assert_eq!(r.err(), Some(MintError::OneYoctoRequired));
    }
    let r = c.nft_burn(&ctx("thief.near", 0, 0), s("7"), Some(s("buyer.near")));
    assert_eq!(r.err(), Some(MintError::OneYoctoRequired));
}

#[test]
fn burn_of_an_unrecorded_item_is_refused() {
    let c = contract(sale(None, None, 0));
    for caller in ["buyer.near", "testnet", "owner.near", "willem.near"] {
        let r = c.nft_burn(&ctx(caller, 1, 0), s("7"), None);
        assert_eq!(r.err(), Some(MintError::Unauthorized));
    }
    let r = c.nft_burn(&ctx("testnet", 0, 0), s("7"), None);
    assert_eq!(r.err(), Some(MintError::OneYoctoRequired));
}

#[test]
fn failed_link_is_no_longer_pending_and_refunded() {
    let mut c = contract(sale(None, None, 0));
    c.pending_tokens = 2;
    assert!(c.on_send_with_callback(true, &ctx("signer.near", 5, 0)).is_none());
    assert_eq!(c.pending_tokens, 2);
    let refund = c.on_send_with_callback(false, &ctx("signer.near", 5, 0)).unwrap();
    assert_eq!(refund.receiver_id, "signer.near");
    assert_eq!(refund.amount, 5);
    assert_eq!(c.pending_tokens, 1);
    assert!(c.on_send_with_callback(false, &ctx("signer.near", 0, 0)).is_none());
    assert_eq!(c.pending_tokens, 0);
}

#[test]
fn claimed_link_mints_the_pending_item() {
    let mut c = contract(sale(None, None, 0));
    c.pending_tokens = 1;
    c.last_id = 41;
    assert_eq!(c.link_callback(false, &s("new.near"), 9).err(), Some(MintError::LinkdropFailed));
    assert_eq!(c.pending_tokens, 1);
    assert_eq!(c.last_id, 41);
    let token = c.link_callback(true, &s("new.near"), 9).unwrap();
    assert_eq!(token.token_id, "42");
    assert_eq!(token.owner_id, "new.near");
    assert_eq!(token.metadata.issued_at, Some(s("9")));
    assert_eq!(c.pending_tokens, 0);
    assert_eq!(c.last_id, 42);
}

#[test]
fn failed_vault_gives_the_item_back_to_the_allowance() {
    let mut c = contract(sale(Some(10), None, 0));
    c.whitelist.insert(&s("buyer.near"), Allowance { claimed: 2, max: 3 });
    assert!(c.on_vault_provisioned(true, &s("buyer.near"), true, &ctx("signer.near", 5, 0)).is_none());
    assert_eq!(c.whitelist.get(&s("buyer.near")), Some(Allowance { claimed: 2, max: 3 }));
    let refund = c.on_vault_provisioned(false, &s("buyer.near"), true, &ctx("signer.near", 5, 0)).unwrap();
    assert_eq!(refund.receiver_id, "signer.near");
    assert_eq!(refund.amount, 5);
    assert_eq!(c.whitelist.get(&s("buyer.near")), Some(Allowance { claimed: 1, max: 3 }));
    assert!(c.on_vault_provisioned(false, &s("other.near"), true, &ctx("signer.near", 0, 0)).is_none());
    assert!(!c.whitelisted(&s("other.near")));
}

#[test]
fn failed_vault_of_an_uncounted_item_leaves_the_allowance() {
    let mut c = contract(sale(None, Some(10), 0));
    c.whitelist.insert(&s("buyer.near"), Allowance { claimed: 3, max: 5 });
    let receipt = c.nft_mint_many(&ctx("buyer.near", 2 * NEAR, 50), 1, &Vec::new(), 0).unwrap();
    let order = &receipt.vaults[0];
    assert!(!order.counted);
    assert_eq!(c.whitelist.get(&s("buyer.near")), Some(Allowance { claimed: 3, max: 5 }));
    let refund = c.on_vault_provisioned(false, &order.owner_id, order.counted, &ctx("buyer.near", 7, 60));
    assert_eq!(refund.unwrap().amount, 7);
    assert_eq!(c.whitelist.get(&s("buyer.near")), Some(Allowance { claimed: 3, max: 5 }));
}

#[test]
fn failed_vault_of_a_counted_item_undoes_the_count() {
    let mut config = sale(None, Some(10), 0);
    config.allowance = Some(5);
    let mut c = contract(config);
    c.whitelist.insert(&s("buyer.near"), Allowance { claimed: 3, max: 5 });
    let receipt = c.nft_mint_many(&ctx("buyer.near", 2 * NEAR, 50), 1, &Vec::new(), 0).unwrap();
    let order = &receipt.vaults[0];
    assert!(order.counted);
    assert_eq!(c.whitelist.get(&s("buyer.near")), Some(Allowance { claimed: 4, max: 5 }));
    assert!(c.on_vault_provisioned(false, &order.owner_id, order.counted, &ctx("buyer.near", 0, 60)).is_none());
    assert_eq!(c.whitelist.get(&s("buyer.near")), Some(Allowance { claimed: 3, max: 5 }));
}

#[test]
fn settlement_of_a_mint() {
    let mut config = sale(None, None, 0);
    let c = contract(config.clone());
    assert_eq!(c.mint_settlement(true, 0, 1_000), Ok(Settlement::Free));
    assert_eq!(c.mint_settlement(false, 0, 1_000), Ok(Settlement::RefundDeposit { storage_used: 1_000 }));
    config.initial_royalties = Some(Royalties {
        accounts: vec![RoyaltyShare { account: s("artist.near"), share: 100 }],
        percent: 10,
    });
    let c = contract(config);
    assert_eq!(c.mint_settlement(true, 0, 1_000), Ok(Settlement::Free));
    assert_eq!(
        c.mint_settlement(false, NEAR, 1_000),
        Ok(Settlement::Royalties { left_over_funds: NEAR - 10_000_000_000_000_000_000_000 })
    );
    assert_eq!(
        c.mint_settlement(false, 10_000_000_000_000_000_000_000, 1_000),
        Ok(Settlement::Royalties { left_over_funds: 0 })
    );
    assert_eq!(
        c.mint_settlement(false, 9_999_999_999_999_999_999_999, 1_000),
        Err(MintError::InsufficientDeposit)
    );
}

#[test]
fn mint_errors_have_distinct_messages() {
    let all = [
        MintError::RateLimitExceeded,
        MintError::NotMintable { status: Status::SoldOut },
        MintError::NotMintable { status: Status::Closed },
        MintError::NoAllowanceLeft,
        MintError::AllowanceExceeded,
        MintError::InsufficientDeposit,
        MintError::Unauthorized,
        MintError::OneYoctoRequired,
        MintError::AlreadyMinted,
        MintError::LinkdropFailed,
    ];
    for (i, a) in all.iter().enumerate() {
        for (j, b) in all.iter().enumerate() {
            assert_eq!(i == j, a.message() == b.message());
        }
    }
    assert_eq!(MintError::RateLimitExceeded.message(), "over mint limit");
    assert_eq!(MintError::NoAllowanceLeft.message(), "Account has no more allowance left");
    assert_eq!(InitError::MediaExtension.message(), "media extension must not start with '.'");
    assert_eq!(InitError::Metadata(MetadataFault::HashLength).message(), "Hash has to be 32 bytes");
    assert_ne!(InitError::InvalidSale.message(), InitError::Price.message());
}

#[test]
fn whitelist_can_be_prepared_ahead_of_a_contract() {
    let mut table = Whitelist::new();
    table.insert(&s("buyer.near"), Allowance::new(1));
    let mut c = contract(sale(Some(10), None, 0));
    c.whitelist = table;
    assert_eq!(c.nft_mint_many(&ctx("buyer.near", 2 * NEAR, 50), 1, &Vec::new(), 0).unwrap().tokens.len(), 1);
    assert_eq!(c.whitelist.get(&s("buyer.near")), Some(Allowance { claimed: 1, max: 1 }));
}

fn royalties(percent: u8, shares: &[(&str, u8)]) -> Royalties {
    Royalties {
        accounts: shares.iter().map(|(account, share)| RoyaltyShare { account: s(account), share: *share }).collect(),
        percent,
    }
}

#[test]
fn percent_is_rounded_down() {
    assert_eq!(apply_percent(0, 12345), 0);
    assert_eq!(apply_percent(100, 12345), 12345);
    assert_eq!(apply_percent(10, 1000), 100);
    assert_eq!(apply_percent(33, 10), 3);
    assert_eq!(apply_percent(99, 99), 98);
    assert_eq!(apply_percent(1, 99), 0);
    assert_eq!(apply_percent(100, u128::MAX), u128::MAX);
    assert_eq!(apply_percent(50, u128::MAX), u128::MAX / 2);
}

#[test]
fn royalties_are_checked() {
    assert!(royalties(100, &[("a.near", 60), ("b.near", 40)]).validate());
    assert!(royalties(0, &[]).validate());
    assert!(!royalties(101, &[]).validate());
    assert!(!royalties(10, &[("a.near", 60), ("b.near", 41)]).validate());
    assert!(!royalties(10, &[("a.near", 255), ("b.near", 255)]).validate());
    let ten: Vec<(&str, u8)> = (0..10).map(|_| ("a.near", 10u8)).collect();
    assert!(royalties(10, &ten).validate());
    let eleven: Vec<(&str, u8)> = (0..11).map(|_| ("a.near", 1u8)).collect();
    assert!(!royalties(10, &eleven).validate());
}

#[test]
fn sale_with_invalid_royalties_is_refused() {
    let mut config = sale(None, None, 0);
    config.royalties = Some(royalties(101, &[]));
    assert!(!config.validate());
    let r = Contract::new(s("owner.near"), metadata(), config, None);
    assert_eq!(r.err(), Some(InitError::InvalidSale));
    let mut config = sale(None, None, 0);
    config.initial_royalties = Some(royalties(10, &[("a.near", 101)]));
    assert!(!config.validate());
}

#[test]
fn royalties_are_split_and_the_rest_goes_to_the_owner() {
    let split = royalties(20, &[("a.near", 75), ("b.near", 25)]);
    let payments = split.payout(1_000, &s("owner.near"));
    assert_eq!(payments.len(), 3);
    assert_eq!(payments[0].receiver_id, "a.near");
    assert_eq!(payments[0].amount, 150);
    assert_eq!(payments[1].receiver_id, "b.near");
    assert_eq!(payments[1].amount, 50);
    assert_eq!(payments[2].receiver_id, "owner.near");
    assert_eq!(payments[2].amount, 800);
}

#[test]
fn royalties_without_accounts_pay_the_owner_the_rest() {
    let payments = royalties(20, &[]).payout(1_001, &s("owner.near"));
    assert_eq!(payments.len(), 1);
    assert_eq!(payments[0].receiver_id, "owner.near");
    assert_eq!(payments[0].amount, 801);
}
