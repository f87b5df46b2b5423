use golf_mellow_spl::errors::BurnTokenErrors;
use golf_mellow_spl::errors::CustomError;
use golf_mellow_spl::errors::InitMintErrors;
use golf_mellow_spl::errors::MintTokenErrors;
use golf_mellow_spl::errors::TransferTokenErrors;
use golf_mellow_spl::ops::burn_tokens;
use golf_mellow_spl::ops::init_mint;
use golf_mellow_spl::ops::initialize_pda;
use golf_mellow_spl::ops::max_mint_per_transaction;
use golf_mellow_spl::ops::mint_tokens;
use golf_mellow_spl::ops::store_polygon_address;
use golf_mellow_spl::ops::track_burn_metadata;
use golf_mellow_spl::ops::transfer_tokens;
use golf_mellow_spl::record::AccountId;
use golf_mellow_spl::record::LedgerRecord;
use golf_mellow_spl::record::PDAInitParams;
use golf_mellow_spl::record::SPLMintParams;

const DECIMALS: u8 = 9;

fn creator() -> AccountId {
    AccountId { w0: 11, w1: 22, w2: 33, w3: 44 }
}

fn stranger() -> AccountId {
    AccountId { w0: 55, w1: 66, w2: 77, w3: 88 }
}

fn fresh_record() -> LedgerRecord {
    initialize_pda(
        PDAInitParams { polygon_address: String::from("0x1234567890abcdef1234567890abcdef12345678") },
        creator(),
        254,
    )
}

#[test]
fn creation_zeroes_counters_and_binds_creator() {
    let record = fresh_record();
    assert_eq!(record.mint_total, 0);
    assert_eq!(record.burn_total, 0);
    assert_eq!(record.authority, creator());
    assert_eq!(record.bump, 254);
    assert_eq!(record.polygon_address, "0x1234567890abcdef1234567890abcdef12345678");
}

#[test]
fn creation_stores_address_verbatim_unchecked() {
    let record = initialize_pda(
        PDAInitParams { polygon_address: String::from("short") },
        creator(),
        1,
    );
    assert_eq!(record.polygon_address, "short");
}

#[test]
fn burn_then_mint_up_to_burned_total() {
    let mut record = fresh_record();
    assert_eq!(burn_tokens(&mut record, 1_000), Ok(1_000));
    assert_eq!(record.burn_total, 1_000);
    assert_eq!(mint_tokens(&mut record, 1_000, creator(), DECIMALS), Ok(1_000));
    assert_eq!(record.mint_total, 1_000);
    assert_eq!(
        mint_tokens(&mut record, 1, creator(), DECIMALS),
        Err(MintTokenErrors::ExceedsBurnedAmount)
    );
    assert_eq!(record.mint_total, 1_000);
    assert_eq!(record.burn_total, 1_000);
}

#[test]
fn fresh_record_rejects_any_positive_mint() {
    let mut record = fresh_record();
    assert_eq!(
        mint_tokens(&mut record, 1, creator(), DECIMALS),
        Err(MintTokenErrors::ExceedsBurnedAmount)
    );
    assert_eq!(
        mint_tokens(&mut record, 15_000 * 10u64.pow(DECIMALS as u32), creator(), DECIMALS),
        Err(MintTokenErrors::ExceedsBurnedAmount)
    );
    assert_eq!(record.mint_total, 0);
}

#[test]
fn mint_cap_is_fifteen_thousand_whole_tokens() {
    assert_eq!(max_mint_per_transaction(0), 15_000);
    assert_eq!(max_mint_per_transaction(2), 1_500_000);
    assert_eq!(max_mint_per_transaction(9), 15_000_000_000_000);
}

#[test]
fn mint_over_cap_rejected_even_with_cover() {
    let cap = 15_000 * 10u64.pow(DECIMALS as u32);
    let mut record = fresh_record();
    assert_eq!(burn_tokens(&mut record, cap + 1_000), Ok(cap + 1_000));
    assert_eq!(
        mint_tokens(&mut record, cap + 1, creator(), DECIMALS),
        Err(MintTokenErrors::ExceedsMaxMintPerTransaction)
    );
    assert_eq!(record.mint_total, 0);
    assert_eq!(mint_tokens(&mut record, cap, creator(), DECIMALS), Ok(cap));
    assert_eq!(record.mint_total, cap);
}

#[test]
fn mint_by_stranger_rejected_unchanged() {
    let mut record = fresh_record();
    assert_eq!(burn_tokens(&mut record, 500), Ok(500));
    assert_eq!(
        mint_tokens(&mut record, 100, stranger(), DECIMALS),
        Err(MintTokenErrors::Unauthorized)
    );
    assert_eq!(record.mint_total, 0);
    assert_eq!(record.burn_total, 500);
}

#[test]
fn burn_zero_rejected() {
    let mut record = fresh_record();
    assert_eq!(burn_tokens(&mut record, 0), Err(BurnTokenErrors::InvalidBurnAmount));
    assert_eq!(record.burn_total, 0);
}

#[test]
fn burn_overflow_rejected_unchanged() {
    let mut record = fresh_record();
    assert_eq!(burn_tokens(&mut record, u64::MAX - 5), Ok(u64::MAX - 5));
    assert_eq!(burn_tokens(&mut record, 10), Err(BurnTokenErrors::Overflow));
    assert_eq!(record.burn_total, u64::MAX - 5);
    assert_eq!(burn_tokens(&mut record, 5), Ok(u64::MAX));
    assert_eq!(record.burn_total, u64::MAX);
}

#[test]
fn store_address_requires_authority() {
    let mut record = fresh_record();
    let before = record.polygon_address.clone();
    assert_eq!(
        store_polygon_address(
            &mut record,
            String::from("0xabcdefabcdefabcdefabcdefabcdefabcdefabcd"),
            stranger(),
        ),
        Err(CustomError::Unauthorized)
    );
    assert_eq!(record.polygon_address, before);
}

#[test]
fn store_address_of_41_or_43_chars_rejected() {
    let mut record = fresh_record();
    let before = record.polygon_address.clone();
    let addr41 = "0xabcdefabcdefabcdefabcdefabcdefabcdefabc";
    let addr43 = "0xabcdefabcdefabcdefabcdefabcdefabcdefabcde";
    assert_eq!(addr41.len(), 41);
    assert_eq!(addr43.len(), 43);
    assert_eq!(
        store_polygon_address(&mut record, String::from(addr41), creator()),
        Err(CustomError::InvalidPolygonAddress)
    );
    assert_eq!(
        store_polygon_address(&mut record, String::from(addr43), creator()),
        Err(CustomError::InvalidPolygonAddress)
    );
    assert_eq!(record.polygon_address, before);
}

#[test]
fn store_address_of_42_chars_replaces_binding() {
    let mut record = fresh_record();
    let addr42 = "0xabcdefabcdefabcdefabcdefabcdefabcdefabcd";
    assert_eq!(addr42.len(), 42);
    assert_eq!(store_polygon_address(&mut record, String::from(addr42), creator()), Ok(()));
    assert_eq!(record.polygon_address, addr42);
    assert_eq!(record.mint_total, 0);
    assert_eq!(record.burn_total, 0);
}

#[test]
fn track_burn_metadata_requires_authority() {
    let record = fresh_record();
    assert_eq!(track_burn_metadata(&record, stranger(), 77), Err(CustomError::Unauthorized));
    assert_eq!(track_burn_metadata(&record, creator(), 77), Ok(77));
}

#[test]
fn transfer_preconditions() {
    assert_eq!(transfer_tokens(100, 0), Err(TransferTokenErrors::InvalidTransferAmount));
    assert_eq!(transfer_tokens(99, 100), Err(TransferTokenErrors::InsufficientBalance));
    assert_eq!(transfer_tokens(100, 100), Ok(()));
    assert_eq!(transfer_tokens(101, 100), Ok(()));
}

#[test]
fn init_mint_validates_each_bound() {
    let good = SPLMintParams {
        name: String::from("Golf Mellow"),
        symbol: String::from("GM"),
        supply: 600_000 * 1_000_000_000,
        uri: String::from("https://example.invalid/token.json"),
    };
    assert_eq!(init_mint(&good), Ok(()));

    let too_much = SPLMintParams { supply: 600_000 * 1_000_000_000 + 1, ..good.clone() };
    assert_eq!(init_mint(&too_much), Err(InitMintErrors::SupplyTooLarge));

    let long_name = SPLMintParams {
        name: String::from("a name of thirty-three characters"),
        ..good.clone()
    };
    assert_eq!(long_name.name.len(), 33);
    assert_eq!(init_mint(&long_name), Err(InitMintErrors::NameTooLong));

    let long_symbol = SPLMintParams { symbol: String::from("GOLFMELLOW!"), ..good.clone() };
    assert_eq!(long_symbol.symbol.len(), 11);
    assert_eq!(init_mint(&long_symbol), Err(InitMintErrors::SymbolTooLong));

    let name32 = SPLMintParams {
        name: String::from("a name of exactly 32 characters!"),
        symbol: String::from("TENCHARSXX"),
        ..good
    };
    assert_eq!(name32.name.len(), 32);
    assert_eq!(init_mint(&name32), Ok(()));
}

#[test]
fn counters_monotone_across_mixed_outcomes() {
    let mut record = fresh_record();
    let mut last_mint: u64 = 0;
    let mut last_burn: u64 = 0;
    let _ = burn_tokens(&mut record, 0);
    let _ = burn_tokens(&mut record, 2_000);
    let _ = mint_tokens(&mut record, 1, stranger(), DECIMALS);
    let _ = mint_tokens(&mut record, 1_500, creator(), DECIMALS);
    let _ = mint_tokens(&mut record, 1_000, creator(), DECIMALS);
    let _ = store_polygon_address(&mut record, String::from("x"), creator());
    assert!(record.mint_total <= record.burn_total);
    assert!(record.mint_total >= last_mint && record.burn_total >= last_burn);
    last_mint = record.mint_total;
    last_burn = record.burn_total;
    let _ = burn_tokens(&mut record, u64::MAX);
    let _ = mint_tokens(&mut record, 500, creator(), DECIMALS);
    assert!(record.mint_total <= record.burn_total);
    assert!(record.mint_total >= last_mint && record.burn_total >= last_burn);
    assert_eq!(record.mint_total, 2_000);
    assert_eq!(record.burn_total, 2_000);
}
