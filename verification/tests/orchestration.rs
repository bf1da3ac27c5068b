use genesis_setup::errors::GenesisError;
use genesis_setup::genesis::{
    account_kind_name, Genesis, GenesisFlags, DEFAULT_BOOTSTRAP_NODE_LAMPORTS,
    DEFAULT_BOOTSTRAP_NODE_STAKE_LAMPORTS, DEFAULT_FAUCET_LAMPORTS,
    DEFAULT_MAX_GENESIS_ARCHIVE_UNPACKED_SIZE,
};

fn default_flags() -> GenesisFlags {
    GenesisFlags {
        hashes_per_tick: "auto".to_string(),
        slots_per_epoch: None,
        target_lamports_per_signature: None,
        faucet_lamports: None,
        enable_warmup_epochs: false,
        max_genesis_archive_unpacked_size: None,
        cluster_type: "development".to_string(),
        bootstrap_validator_lamports: None,
        bootstrap_validator_stake_lamports: None,
    }
}

fn orchestrator(flags: GenesisFlags) -> Genesis {
    Genesis::new(flags, "config".to_string())
}

#[test]
fn new_keeps_flags_and_directory() {
    let g = orchestrator(default_flags());
    assert_eq!(g.config_dir, "config");
    assert_eq!(g.flags.hashes_per_tick, "auto");
    assert!(g.args.is_empty());
}

#[test]
fn flag_builder_is_deterministic() {
    let a = orchestrator(default_flags());
    let b = orchestrator(default_flags());
    assert_eq!(a.setup_genesis_flags(), b.setup_genesis_flags());
    assert_eq!(a.setup_genesis_flags(), a.setup_genesis_flags());
}

#[test]
fn defaults_fill_every_unset_field() {
    let g = orchestrator(default_flags());
    let args = g.setup_genesis_flags();
    let expected = vec![
        "--bootstrap-validator-stake-lamports",
        "1000000000",
        "--bootstrap-validator-lamports",
        "500000000000",
        "--hashes-per-tick",
        "auto",
        "--max-genesis-archive-unpacked-size",
        "1073741824",
        "--faucet-lamports",
        "500000000000000000",
        "--faucet-pubkey",
        "config/faucet.json",
        "--cluster-type",
        "development",
        "--ledger",
        "config/bootstrap-validator",
        "--bootstrap-validator",
        "config/bootstrap-validator/identity.json",
        "config/bootstrap-validator/stake-account.json",
        "config/bootstrap-validator/vote-account.json",
    ];
    assert_eq!(args, expected);
}

#[test]
fn explicit_values_mask_the_defaults() {
    let flags = GenesisFlags {
        hashes_per_tick: "12500".to_string(),
        slots_per_epoch: Some(8192),
        target_lamports_per_signature: Some(10000),
        faucet_lamports: Some(777),
        enable_warmup_epochs: true,
        max_genesis_archive_unpacked_size: Some(2048),
        cluster_type: "testnet".to_string(),
        bootstrap_validator_lamports: Some(123456789),
        bootstrap_validator_stake_lamports: Some(42),
    };
    let g = orchestrator(flags);
    let args = g.setup_genesis_flags();
    let expected = vec![
        "--bootstrap-validator-stake-lamports",
        "42",
        "--bootstrap-validator-lamports",
        "123456789",
        "--hashes-per-tick",
        "12500",
        "--max-genesis-archive-unpacked-size",
        "2048",
        "--enable-warmup-epochs",
        "--faucet-lamports",
        "777",
        "--faucet-pubkey",
        "config/faucet.json",
        "--cluster-type",
        "testnet",
        "--ledger",
        "config/bootstrap-validator",
        "--bootstrap-validator",
        "config/bootstrap-validator/identity.json",
        "config/bootstrap-validator/stake-account.json",
        "config/bootstrap-validator/vote-account.json",
        "--slots-per-epoch",
        "8192",
        "--target-lamports-per-signature",
        "10000",
    ];
    assert_eq!(args, expected);
    let stake_default = DEFAULT_BOOTSTRAP_NODE_STAKE_LAMPORTS.to_string();
    let lamports_default = DEFAULT_BOOTSTRAP_NODE_LAMPORTS.to_string();
    let faucet_default = DEFAULT_FAUCET_LAMPORTS.to_string();
    let size_default = DEFAULT_MAX_GENESIS_ARCHIVE_UNPACKED_SIZE.to_string();
    assert!(!args.contains(&stake_default));
    assert!(!args.contains(&lamports_default));
    assert!(!args.contains(&faucet_default));
    assert!(!args.contains(&size_default));
}

#[test]
fn unset_optional_flags_are_omitted_entirely() {
    let g = orchestrator(default_flags());
    let args = g.setup_genesis_flags();
    assert!(!args.iter().any(|a| a == "--slots-per-epoch"));
    assert!(!args.iter().any(|a| a == "--target-lamports-per-signature"));
    assert!(!args.iter().any(|a| a == "--enable-warmup-epochs"));
}

#[test]
fn generate_plans_the_genesis_tool() {
    let g = orchestrator(default_flags());
    let cmd = g.generate();
    assert_eq!(cmd.program, "solana-genesis");
    assert_eq!(cmd.args, g.setup_genesis_flags());
}

#[test]
fn generate_keypair_plans_the_keygen_tool() {
    let g = orchestrator(default_flags());
    let cmd = g.generate_keypair("config/x.json".to_string());
    assert_eq!(cmd.program, "solana-keygen");
    assert_eq!(
        cmd.args,
        vec!["new", "--no-bip39-passphrase", "--silent", "-o", "config/x.json"]
    );
}

#[test]
fn generate_faucet_targets_the_faucet_path() {
    let g = orchestrator(default_flags());
    let cmd = g.generate_faucet();
    assert_eq!(cmd.program, "solana-keygen");
    assert_eq!(cmd.args[4], "config/faucet.json");
}

#[test]
fn faucet_failure_carries_the_tool_diagnostics() {
    assert!(Genesis::check_faucet(true, String::new()).is_ok());
    let err = Genesis::check_faucet(false, "keygen blew up".to_string()).unwrap_err();
    assert_eq!(
        err.message(),
        "Failed to create new faucet keypair. err: keygen blew up"
    );
}

#[test]
fn account_failure_names_the_account() {
    assert!(Genesis::check_account("identity".to_string(), true, String::new()).is_ok());
    let err =
        Genesis::check_account("vote-account".to_string(), false, "disk full".to_string())
            .unwrap_err();
    assert_eq!(
        err.message(),
        "Failed to create new account keypair. account: vote-account, err: disk full"
    );
}

#[test]
fn genesis_failure_carries_the_tool_diagnostics() {
    assert!(Genesis::check_generate(true, String::new()).is_ok());
    let err = Genesis::check_generate(false, "bad flag".to_string()).unwrap_err();
    assert_eq!(err.message(), "Failed to create genesis. err: bad flag");
}

#[test]
fn bogus_validator_type_fails_before_any_plan() {
    let g = orchestrator(default_flags());
    let r = g.generate_accounts("bogus", 3);
    let err = r.unwrap_err();
    assert!(matches!(err, GenesisError::InvalidValidatorType { .. }));
    assert_eq!(err.message(), "Invalid validator type: bogus");
}

#[test]
fn three_validators_get_nine_artifacts_in_order() {
    let g = orchestrator(default_flags());
    let cmds = g.generate_accounts("validator", 3).unwrap();
    assert_eq!(cmds.len(), 9);
    let expected_paths = vec![
        "config/validator-identity-0.json",
        "config/validator-vote-account-0.json",
        "config/validator-stake-account-0.json",
        "config/validator-identity-1.json",
        "config/validator-vote-account-1.json",
        "config/validator-stake-account-1.json",
        "config/validator-identity-2.json",
        "config/validator-vote-account-2.json",
        "config/validator-stake-account-2.json",
    ];
    for (cmd, path) in cmds.iter().zip(expected_paths.iter()) {
        assert_eq!(cmd.program, "solana-keygen");
        assert_eq!(
            cmd.args,
            vec!["new", "--no-bip39-passphrase", "--silent", "-o", path]
        );
    }
}

#[test]
fn bootstrap_artifacts_live_under_their_directory() {
    let g = orchestrator(default_flags());
    let cmds = g.generate_accounts("bootstrap", 1).unwrap();
    assert_eq!(cmds.len(), 3);
    assert_eq!(cmds[0].args[4], "config/bootstrap-validator/identity.json");
    assert_eq!(cmds[1].args[4], "config/bootstrap-validator/vote-account.json");
    assert_eq!(cmds[2].args[4], "config/bootstrap-validator/stake-account.json");
}

#[test]
fn account_kinds_cycle_in_generation_order() {
    assert_eq!(account_kind_name(0), "identity");
    assert_eq!(account_kind_name(1), "vote-account");
    assert_eq!(account_kind_name(2), "stake-account");
    assert_eq!(account_kind_name(7), "vote-account");
}

#[test]
fn zero_or_negative_counts_plan_nothing() {
    let g = orchestrator(default_flags());
    assert_eq!(g.generate_accounts("validator", 0).unwrap().len(), 0);
    assert_eq!(g.generate_accounts("validator", -5).unwrap().len(), 0);
}

#[test]
fn flags_display_lists_every_field() {
    let flags = default_flags();
    let expected = "GenesisFlags {\nhashes_per_tick: \"auto\",\nslots_per_epoch: None,\n\
        target_lamports_per_signature: None,\nfaucet_lamports: None,\n\
        enable_warmup_epochs: false,\nmax_genesis_archive_unpacked_size: None,\n\
        bootstrap_validator_sol: None,\nbootstrap_validator_stake_sol: None,\n}";
    assert_eq!(flags.to_display_string(), expected);
    let flags = GenesisFlags {
        slots_per_epoch: Some(8192),
        enable_warmup_epochs: true,
        ..default_flags()
    };
    let rendered = flags.to_display_string();
    assert!(rendered.contains("slots_per_epoch: Some(8192),\n"));
    assert!(rendered.contains("enable_warmup_epochs: true,\n"));
}
