use genesis_setup::errors::GenesisError;
use genesis_setup::ledger_helper::{ledger_directory_exists, parse_u16_from_str, LedgerHelper};

#[test]
fn missing_ledger_fails_fast() {
    let err = ledger_directory_exists(false).unwrap_err();
    assert!(matches!(err, GenesisError::LedgerNotFound));
    assert_eq!(
        err.message(),
        "Ledger Directory does not exist, have you created genesis yet??"
    );
    assert!(ledger_directory_exists(true).is_ok());
}

#[test]
fn shred_version_requires_an_existing_ledger() {
    let r = LedgerHelper::get_shred_version("ledger", false);
    assert!(matches!(r, Err(GenesisError::LedgerNotFound)));
}

#[test]
fn shred_version_command_is_bounded_by_the_default_cap() {
    let cmd = LedgerHelper::get_shred_version("ledger", true).unwrap();
    assert_eq!(cmd.program, "solana-ledger-tool");
    assert_eq!(
        cmd.args,
        vec![
            "-l",
            "ledger",
            "shred-version",
            "--max-genesis-archive-unpacked-size",
            "1073741824",
        ]
    );
}

#[test]
fn shred_version_parses_trimmed_stdout() {
    assert_eq!(
        LedgerHelper::shred_version_from_output(true, " 512\n", String::new()).unwrap(),
        512
    );
    assert_eq!(
        LedgerHelper::shred_version_from_output(true, "65535", String::new()).unwrap(),
        65535
    );
    let r = LedgerHelper::shred_version_from_output(true, "65536", String::new());
    assert!(matches!(r, Err(GenesisError::InvalidU16)));
    let r = LedgerHelper::shred_version_from_output(true, "not a number", String::new());
    assert!(matches!(r, Err(GenesisError::InvalidU16)));
}

#[test]
fn shred_version_surfaces_tool_failure() {
    let err =
        LedgerHelper::shred_version_from_output(false, "", "ledger corrupt".to_string())
            .unwrap_err();
    assert_eq!(
        err.message(),
        "Error in solana-ledger-tool shred-version command. err: ledger corrupt"
    );
}

#[test]
fn snapshot_requires_an_existing_ledger() {
    let r = LedgerHelper::create_snapshot(42, "ledger", false);
    assert!(matches!(r, Err(GenesisError::LedgerNotFound)));
}

#[test]
fn snapshot_command_warps_to_the_requested_slot() {
    let cmd = LedgerHelper::create_snapshot(42, "ledger", true).unwrap();
    assert_eq!(cmd.program, "solana-ledger-tool");
    assert_eq!(
        cmd.args,
        vec!["-l", "ledger", "create-snapshot", "0", "ledger", "--warp-slot", "42"]
    );
}

#[test]
fn snapshot_cache_lives_under_the_ledger() {
    assert_eq!(
        LedgerHelper::accounts_hash_cache_dir("ledger"),
        "ledger/accounts_hash_cache"
    );
}

#[test]
fn snapshot_surfaces_tool_failure() {
    assert!(LedgerHelper::check_snapshot(true, String::new()).is_ok());
    let err = LedgerHelper::check_snapshot(false, "no slot".to_string()).unwrap_err();
    assert_eq!(
        err.message(),
        "Error in solana-ledger-tool create-snapshot command. err: no slot"
    );
}

#[test]
fn bank_hash_requires_an_existing_ledger() {
    let r = LedgerHelper::create_bank_hash("ledger", false);
    assert!(matches!(r, Err(GenesisError::LedgerNotFound)));
}

#[test]
fn bank_hash_command_halts_at_slot_zero() {
    let cmd = LedgerHelper::create_bank_hash("ledger", true).unwrap();
    assert_eq!(cmd.program, "solana-ledger-tool");
    assert_eq!(cmd.args, vec!["-l", "ledger", "bank-hash", "--halt-at-slot", "0"]);
}

#[test]
fn bank_hash_is_trimmed_of_surrounding_whitespace() {
    let h = LedgerHelper::bank_hash_from_output(true, "5GydRa9sGd3LMsuNAYyvbL4zYBNCs45sbunChv7ZCebV\n", String::new())
        .unwrap();
    assert_eq!(h, "5GydRa9sGd3LMsuNAYyvbL4zYBNCs45sbunChv7ZCebV");
    let h = LedgerHelper::bank_hash_from_output(true, " \t\r\n hash \t\r\n ", String::new()).unwrap();
    assert_eq!(h, "hash");
    let h = LedgerHelper::bank_hash_from_output(true, "hash\u{a0}", String::new()).unwrap();
    assert_eq!(h, "hash");
}

#[test]
fn bank_hash_surfaces_tool_failure() {
    let err = LedgerHelper::bank_hash_from_output(false, "", "no bank".to_string()).unwrap_err();
    assert_eq!(
        err.message(),
        "Error in solana-ledger-tool bank-hash command. err: no bank"
    );
}

#[test]
fn u16_parsing_accepts_exactly_the_decimal_forms() {
    assert_eq!(parse_u16_from_str("123").unwrap(), 123);
    assert_eq!(parse_u16_from_str(" +42 ").unwrap(), 42);
    assert_eq!(parse_u16_from_str("0").unwrap(), 0);
    assert_eq!(parse_u16_from_str("65535").unwrap(), 65535);
    assert!(matches!(parse_u16_from_str("65536"), Err(GenesisError::InvalidU16)));
    assert!(matches!(parse_u16_from_str(""), Err(GenesisError::InvalidU16)));
    assert!(matches!(parse_u16_from_str("   "), Err(GenesisError::InvalidU16)));
    assert!(matches!(parse_u16_from_str("+"), Err(GenesisError::InvalidU16)));
    assert!(matches!(parse_u16_from_str("12a"), Err(GenesisError::InvalidU16)));
    assert!(matches!(parse_u16_from_str("-1"), Err(GenesisError::InvalidU16)));
    assert!(matches!(parse_u16_from_str("99999999999999999999"), Err(GenesisError::InvalidU16)));
}
