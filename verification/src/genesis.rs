//! Genesis orchestration: keypair provisioning plans, flag construction
//! for the genesis-construction tool, and interpretation of tool
//! outcomes.
//!
//! Every function here is pure: it validates inputs and computes the
//! exact external commands to run, or maps a tool outcome back to a
//! result. The embedding program performs the filesystem resets and
//! spawns the processes.

use vstd::prelude::*;

use crate::CommandSpec;
use crate::errors::GenesisError;
use crate::text::{spec_udec, str_eq, u64_to_string};

verus! {

/// Lamports granted to the faucet when no override is given.
pub const DEFAULT_FAUCET_LAMPORTS: u64 = 500000000000000000;

/// Cap on the unpacked genesis archive when no override is given.
pub const DEFAULT_MAX_GENESIS_ARCHIVE_UNPACKED_SIZE: u64 = 1073741824;

/// Stake of the bootstrap validator when no override is given.
pub const DEFAULT_BOOTSTRAP_NODE_STAKE_LAMPORTS: u64 = 1000000000;

/// Balance of the bootstrap validator when no override is given.
pub const DEFAULT_BOOTSTRAP_NODE_LAMPORTS: u64 = 500000000000;

/// The configuration handed to the genesis-construction tool. Optional
/// fields fall back to the named default constants at flag-build time;
/// `slots_per_epoch` and `target_lamports_per_signature` are omitted
/// from the flag set entirely when unset.
pub struct GenesisFlags {
    pub hashes_per_tick: String,
    pub slots_per_epoch: Option<u64>,
    pub target_lamports_per_signature: Option<u64>,
    pub faucet_lamports: Option<u64>,
    pub enable_warmup_epochs: bool,
    pub max_genesis_archive_unpacked_size: Option<u64>,
    pub cluster_type: String,
    pub bootstrap_validator_lamports: Option<u64>,
    pub bootstrap_validator_stake_lamports: Option<u64>,
}

/// The mathematical contents of a `GenesisFlags` value.
pub ghost struct GenesisFlagsView {
    pub hashes_per_tick: Seq<char>,
    pub slots_per_epoch: Option<u64>,
    pub target_lamports_per_signature: Option<u64>,
    pub faucet_lamports: Option<u64>,
    pub enable_warmup_epochs: bool,
    pub max_genesis_archive_unpacked_size: Option<u64>,
    pub cluster_type: Seq<char>,
    pub bootstrap_validator_lamports: Option<u64>,
    pub bootstrap_validator_stake_lamports: Option<u64>,
}

impl View for GenesisFlags {
    type V = GenesisFlagsView;

    open spec fn view(&self) -> GenesisFlagsView {
        GenesisFlagsView {
            hashes_per_tick: self.hashes_per_tick@,
            slots_per_epoch: self.slots_per_epoch,
            target_lamports_per_signature: self.target_lamports_per_signature,
            faucet_lamports: self.faucet_lamports,
            enable_warmup_epochs: self.enable_warmup_epochs,
            max_genesis_archive_unpacked_size: self.max_genesis_archive_unpacked_size,
            cluster_type: self.cluster_type@,
            bootstrap_validator_lamports: self.bootstrap_validator_lamports,
            bootstrap_validator_stake_lamports: self.bootstrap_validator_stake_lamports,
        }
    }
}

/// How an optional count renders in the flag summary.
pub open spec fn spec_opt_u64_debug(v: Option<u64>) -> Seq<char> {
    match v {
        None => "None"@,
        Some(n) => "Some("@ + spec_udec(n as nat) + ")"@,
    }
}

fn opt_u64_debug(v: Option<u64>) -> (r: String)
    ensures
        r@ == spec_opt_u64_debug(v),
{
    match v {
        None => String::from_str("None"),
        Some(n) => String::from_str("Some(").concat(u64_to_string(n).as_str()).concat(")"),
    }
}

/// How a boolean renders in the flag summary.
pub open spec fn spec_bool_display(b: bool) -> Seq<char> {
    if b {
        "true"@
    } else {
        "false"@
    }
}

/// The multi-line summary of a flag set: each field on a line of its
/// own, optional fields shown unresolved, the bootstrap balances
/// labelled as sol amounts. The hashes-per-tick value stands between
/// quotes verbatim: a quote or backslash inside it is not escaped.
pub open spec fn spec_flags_display(f: GenesisFlagsView) -> Seq<char> {
    "GenesisFlags {\nhashes_per_tick: \""@ + f.hashes_per_tick + "\",\nslots_per_epoch: "@
        + spec_opt_u64_debug(f.slots_per_epoch) + ",\ntarget_lamports_per_signature: "@
        + spec_opt_u64_debug(f.target_lamports_per_signature) + ",\nfaucet_lamports: "@
        + spec_opt_u64_debug(f.faucet_lamports) + ",\nenable_warmup_epochs: "@
        + spec_bool_display(f.enable_warmup_epochs) + ",\nmax_genesis_archive_unpacked_size: "@
        + spec_opt_u64_debug(f.max_genesis_archive_unpacked_size)
        + ",\nbootstrap_validator_sol: "@ + spec_opt_u64_debug(f.bootstrap_validator_lamports)
        + ",\nbootstrap_validator_stake_sol: "@ + spec_opt_u64_debug(
        f.bootstrap_validator_stake_lamports,
    ) + ",\n}"@
}

impl GenesisFlags {
    /// Renders the flag set as a multi-line summary for diagnostics.
    pub fn to_display_string(&self) -> (r: String)
        ensures
            r@ == spec_flags_display(self@),
    {
        String::from_str("GenesisFlags {\nhashes_per_tick: \"").concat(
            self.hashes_per_tick.as_str(),
        ).concat("\",\nslots_per_epoch: ").concat(
            opt_u64_debug(self.slots_per_epoch).as_str(),
        ).concat(",\ntarget_lamports_per_signature: ").concat(
            opt_u64_debug(self.target_lamports_per_signature).as_str(),
        ).concat(",\nfaucet_lamports: ").concat(
            opt_u64_debug(self.faucet_lamports).as_str(),
        ).concat(",\nenable_warmup_epochs: ").concat(
            if self.enable_warmup_epochs {
                "true"
            } else {
                "false"
            },
        ).concat(",\nmax_genesis_archive_unpacked_size: ").concat(
            opt_u64_debug(self.max_genesis_archive_unpacked_size).as_str(),
        ).concat(",\nbootstrap_validator_sol: ").concat(
            opt_u64_debug(self.bootstrap_validator_lamports).as_str(),
        ).concat(",\nbootstrap_validator_stake_sol: ").concat(
            opt_u64_debug(self.bootstrap_validator_stake_lamports).as_str(),
        ).concat(",\n}")
    }
}

/// Options for setting up a cluster namespace.
#[derive(Clone, Debug)]
pub struct SetupConfig<'a> {
    pub namespace: &'a str,
    pub num_validators: i32,
    pub prebuild_genesis: bool,
}

/// The genesis orchestrator: owns the flag set and the config directory
/// path, and plans every external invocation of the bootstrap sequence.
pub struct Genesis {
    pub flags: GenesisFlags,
    pub config_dir: String,
    pub args: Vec<String>,
}

/// A path directly under `dir`.
pub open spec fn spec_join(dir: Seq<char>, name: Seq<char>) -> Seq<char> {
    dir + "/"@ + name
}

/// Returns the path of `name` directly under `dir`.
pub fn join_path(dir: &str, name: &str) -> (r: String)
    ensures
        r@ == spec_join(dir@, name@),
{
    String::from_str(dir).concat("/").concat(name)
}

/// The value of an optional field after default resolution.
pub open spec fn spec_opt_or(v: Option<u64>, default: u64) -> u64 {
    match v {
        Some(x) => x,
        None => default,
    }
}

/// The exact argument sequence handed to the genesis-construction tool
/// for the given flag set and config directory.
pub open spec fn spec_genesis_args(f: GenesisFlagsView, dir: Seq<char>) -> Seq<Seq<char>> {
    seq![
        "--bootstrap-validator-stake-lamports"@,
        spec_udec(
            spec_opt_or(
                f.bootstrap_validator_stake_lamports,
                DEFAULT_BOOTSTRAP_NODE_STAKE_LAMPORTS,
            ) as nat,
        ),
        "--bootstrap-validator-lamports"@,
        spec_udec(
            spec_opt_or(f.bootstrap_validator_lamports, DEFAULT_BOOTSTRAP_NODE_LAMPORTS) as nat,
        ),
        "--hashes-per-tick"@,
        f.hashes_per_tick,
        "--max-genesis-archive-unpacked-size"@,
        spec_udec(
            spec_opt_or(
                f.max_genesis_archive_unpacked_size,
                DEFAULT_MAX_GENESIS_ARCHIVE_UNPACKED_SIZE,
            ) as nat,
        ),
    ] + (if f.enable_warmup_epochs {
        seq!["--enable-warmup-epochs"@]
    } else {
        Seq::<Seq<char>>::empty()
    }) + seq![
        "--faucet-lamports"@,
        spec_udec(spec_opt_or(f.faucet_lamports, DEFAULT_FAUCET_LAMPORTS) as nat),
        "--faucet-pubkey"@,
        spec_join(dir, "faucet.json"@),
        "--cluster-type"@,
        f.cluster_type,
        "--ledger"@,
        spec_join(dir, "bootstrap-validator"@),
        "--bootstrap-validator"@,
        spec_join(dir, "bootstrap-validator/identity.json"@),
        spec_join(dir, "bootstrap-validator/stake-account.json"@),
        spec_join(dir, "bootstrap-validator/vote-account.json"@),
    ] + (match f.slots_per_epoch {
        Some(n) => seq!["--slots-per-epoch"@, spec_udec(n as nat)],
        None => Seq::<Seq<char>>::empty(),
    }) + (match f.target_lamports_per_signature {
        Some(n) => seq!["--target-lamports-per-signature"@, spec_udec(n as nat)],
        None => Seq::<Seq<char>>::empty(),
    })
}

/// The argument sequence of the key-generation tool for one keypair
/// written to `path`: no passphrase, silent, output to `path`.
pub open spec fn spec_keygen_args(path: Seq<char>) -> Seq<Seq<char>> {
    seq!["new"@, "--no-bip39-passphrase"@, "--silent"@, "-o"@, path]
}

/// Whether `cmd` invokes the key-generation tool to write one keypair
/// to `path`.
pub open spec fn is_keygen_command(cmd: CommandSpec, path: Seq<char>) -> bool {
    cmd.program@ == "solana-keygen"@ && cmd.args.deep_view() == spec_keygen_args(path)
}

/// The accepted validator types.
pub open spec fn is_valid_validator_type(t: Seq<char>) -> bool {
    t == "bootstrap"@ || t == "validator"@
}

/// The account kinds provisioned per validator, in generation order.
pub open spec fn spec_account_kind(j: nat) -> Seq<char> {
    if j == 0 {
        "identity"@
    } else if j == 1 {
        "vote-account"@
    } else {
        "stake-account"@
    }
}

/// Returns the account kind provisioned at artifact position `k` of a
/// run: kind `k % 3`, in the order identity, vote-account,
/// stake-account.
pub fn account_kind_name(k: usize) -> (r: String)
    ensures
        r@ == spec_account_kind((k % 3) as nat),
{
    let j = k % 3;
    if j == 0 {
        String::from_str("identity")
    } else if j == 1 {
        String::from_str("vote-account")
    } else {
        String::from_str("stake-account")
    }
}

/// The file name of the `k`-th keypair artifact of a provisioning run:
/// artifact `k` is account kind `k % 3` of validator index `k / 3`.
/// Bootstrap artifacts live under the `bootstrap-validator` directory;
/// validator artifacts live flat, tagged with their index.
pub open spec fn spec_account_filename(bootstrap: bool, k: nat) -> Seq<char> {
    let account = spec_account_kind(k % 3);
    if bootstrap {
        "bootstrap-validator/"@ + account + ".json"@
    } else {
        "validator-"@ + account + "-"@ + spec_udec(k / 3) + ".json"@
    }
}

impl Genesis {
    /// Builds an orchestrator over `config_dir`. The caller must have
    /// reset `config_dir` to an empty directory beforehand.
    pub fn new(flags: GenesisFlags, config_dir: String) -> (g: Genesis)
        ensures
            g.flags == flags,
            g.config_dir == config_dir,
            g.args@.len() == 0,
    {
        Genesis { flags, config_dir, args: Vec::new() }
    }

    /// The key-generation invocation writing one keypair to
    /// `output_path`.
    pub fn generate_keypair(&self, output_path: String) -> (cmd: CommandSpec)
        ensures
            is_keygen_command(cmd, output_path@),
    {
        let ghost p = output_path@;
        let mut args: Vec<String> = Vec::new();
        args.push(String::from_str("new"));
        args.push(String::from_str("--no-bip39-passphrase"));
        args.push(String::from_str("--silent"));
        args.push(String::from_str("-o"));
        args.push(output_path);
        proof {
            assert(args.deep_view() =~~= spec_keygen_args(p));
        }
        CommandSpec { program: String::from_str("solana-keygen"), args }
    }

    /// The key-generation invocation for the faucet keypair.
    pub fn generate_faucet(&self) -> (cmd: CommandSpec)
        ensures
            is_keygen_command(cmd, spec_join(self.config_dir@, "faucet.json"@)),
    {
        self.generate_keypair(join_path(self.config_dir.as_str(), "faucet.json"))
    }

    /// Interprets the outcome of the faucet keypair generation:
    /// a non-zero exit becomes a faucet error carrying the tool's
    /// diagnostic text.
    pub fn check_faucet(success: bool, stderr: String) -> (r: Result<(), GenesisError>)
        ensures
            success <==> r is Ok,
            !success ==> (r == Err::<(), GenesisError>(GenesisError::FaucetFailed { stderr })),
    {
        if success {
            Ok(())
        } else {
            Err(GenesisError::FaucetFailed { stderr })
        }
    }

    /// Interprets the outcome of one account keypair generation.
    pub fn check_account(account: String, success: bool, stderr: String) -> (r: Result<
        (),
        GenesisError,
    >)
        ensures
            success <==> r is Ok,
            !success ==> (r == Err::<(), GenesisError>(
                GenesisError::AccountFailed { account, stderr },
            )),
    {
        if success {
            Ok(())
        } else {
            Err(GenesisError::AccountFailed { account, stderr })
        }
    }

    fn account_filename(bootstrap: bool, account: &str, i: i32) -> (r: String)
        requires
            0 <= i,
        ensures
            bootstrap ==> r@ == "bootstrap-validator/"@ + account@ + ".json"@,
            !bootstrap ==> r@ == "validator-"@ + account@ + "-"@ + spec_udec(i as nat)
                + ".json"@,
    {
        if bootstrap {
            String::from_str("bootstrap-validator/").concat(account).concat(".json")
        } else {
            String::from_str("validator-").concat(account).concat("-").concat(
                u64_to_string(i as u64).as_str(),
            ).concat(".json")
        }
    }

    /// Plans the identity, vote-account and stake-account keypairs of
    /// validator index `i`, in that order.
    fn generate_account(&self, bootstrap: bool, i: i32) -> (r: (
        CommandSpec,
        CommandSpec,
        CommandSpec,
    ))
        requires
            0 <= i,
        ensures
            is_keygen_command(
                r.0,
                spec_join(self.config_dir@, spec_account_filename(bootstrap, (3 * i) as nat)),
            ),
            is_keygen_command(
                r.1,
                spec_join(self.config_dir@, spec_account_filename(bootstrap, (3 * i + 1) as nat)),
            ),
            is_keygen_command(
                r.2,
                spec_join(self.config_dir@, spec_account_filename(bootstrap, (3 * i + 2) as nat)),
            ),
    {
        proof {
            assert((3 * (i as int)) % 3 == 0 && (3 * (i as int)) / 3 == i as int);
            assert((3 * (i as int) + 1) % 3 == 1 && (3 * (i as int) + 1) / 3 == i as int);
            assert((3 * (i as int) + 2) % 3 == 2 && (3 * (i as int) + 2) / 3 == i as int);
        }
        let identity = self.generate_keypair(
            join_path(
                self.config_dir.as_str(),
                Self::account_filename(bootstrap, "identity", i).as_str(),
            ),
        );
        let vote = self.generate_keypair(
            join_path(
                self.config_dir.as_str(),
                Self::account_filename(bootstrap, "vote-account", i).as_str(),
            ),
        );
        let stake = self.generate_keypair(
            join_path(
                self.config_dir.as_str(),
                Self::account_filename(bootstrap, "stake-account", i).as_str(),
            ),
        );
        (identity, vote, stake)
    }

    /// Validates the validator type and plans the keypair generation of
    /// `number_of_accounts` validators: three invocations per index, in
    /// the order identity, vote-account, stake-account. A validator
    /// type other than `bootstrap` or `validator` is rejected before
    /// any command is planned.
    pub fn generate_accounts(&self, validator_type: &str, number_of_accounts: i32) -> (r: Result<
        Vec<CommandSpec>,
        GenesisError,
    >)
        ensures
            r is Ok <==> is_valid_validator_type(validator_type@),
            r matches Ok(cmds) ==> {
                &&& cmds@.len() == 3 * (if number_of_accounts > 0 {
                    number_of_accounts as int
                } else {
                    0
                })
                &&& forall|k: int|
                    0 <= k < cmds@.len() ==> is_keygen_command(
                        #[trigger] cmds@[k],
                        spec_join(
                            self.config_dir@,
                            spec_account_filename(validator_type@ == "bootstrap"@, k as nat),
                        ),
                    )
            },
            r matches Err(e) ==> (e matches GenesisError::InvalidValidatorType {
                validator_type: vt,
            } && vt@ == validator_type@),
    {
        let bootstrap = str_eq(validator_type, "bootstrap");
        let is_validator = str_eq(validator_type, "validator");
        if !bootstrap && !is_validator {
            return Err(
                GenesisError::InvalidValidatorType {
                    validator_type: String::from_str(validator_type),
                },
            );
        }
        let mut cmds: Vec<CommandSpec> = Vec::new();
        let mut i: i32 = 0;
        while i < number_of_accounts
            invariant
                0 <= i,
                number_of_accounts > 0 ==> i <= number_of_accounts,
                number_of_accounts <= 0 ==> i == 0,
                bootstrap == (validator_type@ == "bootstrap"@),
                cmds@.len() == 3 * i,
                forall|k: int|
                    0 <= k < cmds@.len() ==> is_keygen_command(
                        #[trigger] cmds@[k],
                        spec_join(self.config_dir@, spec_account_filename(bootstrap, k as nat)),
                    ),
            decreases number_of_accounts - i,
        {
            let (identity, vote, stake) = self.generate_account(bootstrap, i);
            cmds.push(identity);
            cmds.push(vote);
            cmds.push(stake);
            i = i + 1;
        }
        Ok(cmds)
    }

    /// The exact ordered flag set handed to the genesis-construction
    /// tool: every optional field resolved to its default, the
    /// warmup-epochs flag emitted bare only when enabled, and the
    /// epoch/signature flags omitted entirely when unset.
    #[verifier::rlimit(100)]
    pub fn setup_genesis_flags(&self) -> (args: Vec<String>)
        ensures
            args.deep_view() == spec_genesis_args(self.flags@, self.config_dir@),
    {
        let mut args: Vec<String> = Vec::new();
        args.push(String::from_str("--bootstrap-validator-stake-lamports"));
        match self.flags.bootstrap_validator_stake_lamports {
            Some(lamports) => args.push(u64_to_string(lamports)),
            None => args.push(u64_to_string(DEFAULT_BOOTSTRAP_NODE_STAKE_LAMPORTS)),
        }
        args.push(String::from_str("--bootstrap-validator-lamports"));
        match self.flags.bootstrap_validator_lamports {
            Some(lamports) => args.push(u64_to_string(lamports)),
            None => args.push(u64_to_string(DEFAULT_BOOTSTRAP_NODE_LAMPORTS)),
        }
        args.push(String::from_str("--hashes-per-tick"));
        args.push(self.flags.hashes_per_tick.clone());
        args.push(String::from_str("--max-genesis-archive-unpacked-size"));
        match self.flags.max_genesis_archive_unpacked_size {
            Some(size) => args.push(u64_to_string(size)),
            None => args.push(u64_to_string(DEFAULT_MAX_GENESIS_ARCHIVE_UNPACKED_SIZE)),
        }
        if self.flags.enable_warmup_epochs {
            args.push(String::from_str("--enable-warmup-epochs"));
        }
        args.push(String::from_str("--faucet-lamports"));
        match self.flags.faucet_lamports {
            Some(lamports) => args.push(u64_to_string(lamports)),
            None => args.push(u64_to_string(DEFAULT_FAUCET_LAMPORTS)),
        }
        args.push(String::from_str("--faucet-pubkey"));
        args.push(join_path(self.config_dir.as_str(), "faucet.json"));
        args.push(String::from_str("--cluster-type"));
        args.push(self.flags.cluster_type.clone());
        args.push(String::from_str("--ledger"));
        args.push(join_path(self.config_dir.as_str(), "bootstrap-validator"));
        args.push(String::from_str("--bootstrap-validator"));
        args.push(join_path(self.config_dir.as_str(), "bootstrap-validator/identity.json"));
        args.push(join_path(self.config_dir.as_str(), "bootstrap-validator/stake-account.json"));
        args.push(join_path(self.config_dir.as_str(), "bootstrap-validator/vote-account.json"));
        if let Some(slots_per_epoch) = self.flags.slots_per_epoch {
            args.push(String::from_str("--slots-per-epoch"));
            args.push(u64_to_string(slots_per_epoch));
        }
        if let Some(lamports_per_signature) = self.flags.target_lamports_per_signature {
            args.push(String::from_str("--target-lamports-per-signature"));
            args.push(u64_to_string(lamports_per_signature));
        }
        proof {
            assert(args.deep_view() =~~= spec_genesis_args(self.flags@, self.config_dir@));
        }
        args
    }

    /// The genesis-construction invocation with the full flag set.
    pub fn generate(&self) -> (cmd: CommandSpec)
        ensures
            cmd.program@ == "solana-genesis"@,
            cmd.args.deep_view() == spec_genesis_args(self.flags@, self.config_dir@),
    {
        CommandSpec {
            program: String::from_str("solana-genesis"),
            args: self.setup_genesis_flags(),
        }
    }

    /// Interprets the outcome of the genesis-construction tool: a
    /// non-zero exit becomes a genesis error carrying the tool's
    /// diagnostic text.
    pub fn check_generate(success: bool, stderr: String) -> (r: Result<(), GenesisError>)
        ensures
            success <==> r is Ok,
            !success ==> (r == Err::<(), GenesisError>(GenesisError::GenesisFailed { stderr })),
    {
        if success {
            Ok(())
        } else {
            Err(GenesisError::GenesisFailed { stderr })
        }
    }
}

/// Law: the flag builder is deterministic. Two orchestrators whose flag
/// sets and config directories hold identical contents are handed
/// identical argument sequences, by the contract of
/// `setup_genesis_flags`.
pub proof fn lemma_flag_builder_deterministic(a: Genesis, b: Genesis)
    requires
        a.flags@ == b.flags@,
        a.config_dir@ == b.config_dir@,
    ensures
        spec_genesis_args(a.flags@, a.config_dir@) == spec_genesis_args(b.flags@, b.config_dir@),
{
}

/// Law: each optional field with a default stands, resolved, right
/// after its flag in the built argument sequence — the explicit value
/// when the field is set, the named default when it is not.
pub proof fn lemma_optional_field_resolution(f: GenesisFlagsView, dir: Seq<char>)
    ensures
        ({
            let args = spec_genesis_args(f, dir);
            let w: int = if f.enable_warmup_epochs {
                1
            } else {
                0
            };
            &&& args[0] == "--bootstrap-validator-stake-lamports"@
            &&& args[1] == spec_udec(
                spec_opt_or(
                    f.bootstrap_validator_stake_lamports,
                    DEFAULT_BOOTSTRAP_NODE_STAKE_LAMPORTS,
                ) as nat,
            )
            &&& args[2] == "--bootstrap-validator-lamports"@
            &&& args[3] == spec_udec(
                spec_opt_or(f.bootstrap_validator_lamports, DEFAULT_BOOTSTRAP_NODE_LAMPORTS)
                    as nat,
            )
            &&& args[6] == "--max-genesis-archive-unpacked-size"@
            &&& args[7] == spec_udec(
                spec_opt_or(
                    f.max_genesis_archive_unpacked_size,
                    DEFAULT_MAX_GENESIS_ARCHIVE_UNPACKED_SIZE,
                ) as nat,
            )
            &&& args[8 + w] == "--faucet-lamports"@
            &&& args[9 + w] == spec_udec(spec_opt_or(f.faucet_lamports, DEFAULT_FAUCET_LAMPORTS)
                as nat)
        }),
{
}

/// Law: a field set to a value other than its default masks the
/// default: the rendering of the explicit value differs from the
/// rendering of the default, so the default never stands in the
/// field's value position.
pub proof fn lemma_explicit_value_masks_default(set_val: u64, default: u64)
    requires
        set_val != default,
    ensures
        spec_udec(set_val as nat) != spec_udec(default as nat),
{
    if spec_udec(set_val as nat) == spec_udec(default as nat) {
        crate::text::lemma_udec_injective(set_val as nat, default as nat);
    }
}

proof fn lemma_not_contains_concat(x: Seq<Seq<char>>, y: Seq<Seq<char>>, e: Seq<char>)
    requires
        !x.contains(e),
        !y.contains(e),
    ensures
        !(x + y).contains(e),
{
    if (x + y).contains(e) {
        let i = choose|i: int| 0 <= i < (x + y).len() && (x + y)[i] == e;
        if i < x.len() {
            assert(x[i] == e);
        } else {
            assert(y[i - x.len()] == e);
        }
    }
}

proof fn lemma_join_ne(dir: Seq<char>, name: Seq<char>, other: Seq<char>)
    requires
        name.len() > 0,
        other.len() > 0,
        name.last() != other.last(),
    ensures
        spec_join(dir, name) != other,
{
    let j = spec_join(dir, name);
    assert(j.last() == name.last());
}

proof fn lemma_seq_ne_at(a: Seq<char>, b: Seq<char>, i: int)
    requires
        0 <= i < a.len(),
        0 <= i < b.len(),
        a[i] != b[i],
    ensures
        a != b,
{
}

proof fn lemma_udec_ne_flag(n: nat, flag: Seq<char>)
    requires
        flag.len() > 0,
        flag[0] == '-',
    ensures
        spec_udec(n) != flag,
{
    crate::text::lemma_udec_round_trip(n);
    if spec_udec(n) == flag {
        assert(crate::text::is_digit(spec_udec(n)[0]));
    }
}

/// Law: an unset `slots_per_epoch` is omitted entirely — its flag
/// appears nowhere in the built argument sequence. The two
/// caller-supplied free strings must differ from the flag text, else
/// they themselves would stand in a value position.
pub proof fn lemma_unset_slots_per_epoch_not_emitted(f: GenesisFlagsView, dir: Seq<char>)
    requires
        f.slots_per_epoch is None,
        f.hashes_per_tick != "--slots-per-epoch"@,
        f.cluster_type != "--slots-per-epoch"@,
    ensures
        !spec_genesis_args(f, dir).contains("--slots-per-epoch"@),
{
    reveal_strlit("--slots-per-epoch");
    reveal_strlit("--target-lamports-per-signature");
    assert("--slots-per-epoch"@.len() == 17);
    assert("--target-lamports-per-signature"@.len() == 31);
    lemma_flag_not_emitted(f, dir, "--slots-per-epoch"@);
}

/// Law: an unset `target_lamports_per_signature` is omitted entirely —
/// its flag appears nowhere in the built argument sequence. The two
/// caller-supplied free strings must differ from the flag text, else
/// they themselves would stand in a value position.
pub proof fn lemma_unset_target_lamports_not_emitted(f: GenesisFlagsView, dir: Seq<char>)
    requires
        f.target_lamports_per_signature is None,
        f.hashes_per_tick != "--target-lamports-per-signature"@,
        f.cluster_type != "--target-lamports-per-signature"@,
    ensures
        !spec_genesis_args(f, dir).contains("--target-lamports-per-signature"@),
{
    reveal_strlit("--slots-per-epoch");
    reveal_strlit("--target-lamports-per-signature");
    assert("--slots-per-epoch"@.len() == 17);
    assert("--target-lamports-per-signature"@.len() == 31);
    lemma_flag_not_emitted(f, dir, "--target-lamports-per-signature"@);
}

proof fn lemma_account_kind_injective(j1: nat, j2: nat)
    requires
        j1 < 3,
        j2 < 3,
        spec_account_kind(j1) == spec_account_kind(j2),
    ensures
        j1 == j2,
{
    reveal_strlit("identity");
    reveal_strlit("vote-account");
    reveal_strlit("stake-account");
    assert("identity"@.len() == 8);
    assert("vote-account"@.len() == 12);
    assert("stake-account"@.len() == 13);
}

proof fn lemma_join_injective_name(dir: Seq<char>, n1: Seq<char>, n2: Seq<char>)
    requires
        spec_join(dir, n1) == spec_join(dir, n2),
    ensures
        n1 == n2,
{
    reveal_strlit("/");
    assert("/"@.len() == 1);
    let base = dir.len() + 1;
    assert(spec_join(dir, n1).len() == base + n1.len());
    assert(n1 =~= spec_join(dir, n1).subrange(base as int, (base + n1.len()) as int));
    assert(n2 =~= spec_join(dir, n2).subrange(base as int, (base + n2.len()) as int));
}

/// Law: within a validator provisioning run the artifact's file name
/// determines its role and index — no two artifacts share a file.
pub proof fn lemma_validator_artifact_filename_unique(k1: nat, k2: nat)
    requires
        spec_account_filename(false, k1) == spec_account_filename(false, k2),
    ensures
        k1 == k2,
{
    reveal_strlit("validator-");
    reveal_strlit("-");
    reveal_strlit(".json");
    reveal_strlit("identity");
    reveal_strlit("vote-account");
    reveal_strlit("stake-account");
    assert("validator-"@.len() == 10);
    assert("-"@.len() == 1);
    assert(".json"@.len() == 5);
    assert("identity"@.len() == 8 && "identity"@[0] == 'i');
    assert("vote-account"@.len() == 12 && "vote-account"@[0] == 'v');
    assert("stake-account"@.len() == 13 && "stake-account"@[0] == 's');
    let kind1 = spec_account_kind(k1 % 3);
    let kind2 = spec_account_kind(k2 % 3);
    let u1 = spec_udec(k1 / 3);
    let u2 = spec_udec(k2 / 3);
    crate::text::lemma_udec_round_trip(k1 / 3);
    crate::text::lemma_udec_round_trip(k2 / 3);
    let f1 = spec_account_filename(false, k1);
    let f2 = spec_account_filename(false, k2);
    assert(f1 == "validator-"@ + kind1 + "-"@ + u1 + ".json"@);
    assert(f2 == "validator-"@ + kind2 + "-"@ + u2 + ".json"@);
    assert(f1[10] == kind1[0]);
    assert(f2[10] == kind2[0]);
    assert(kind1 == kind2);
    lemma_account_kind_injective(k1 % 3, k2 % 3);
    assert(f1.len() == 16 + kind1.len() + u1.len());
    assert(f2.len() == 16 + kind2.len() + u2.len());
    assert(u1.len() == u2.len());
    let start = 11 + kind1.len();
    assert(u1 =~= f1.subrange(start as int, (start + u1.len()) as int));
    assert(u2 =~= f2.subrange(start as int, (start + u2.len()) as int));
    crate::text::lemma_udec_injective(k1 / 3, k2 / 3);
    assert(k1 == 3 * (k1 / 3) + k1 % 3);
    assert(k2 == 3 * (k2 / 3) + k2 % 3);
}

/// Law: a bootstrap artifact's file depends on its role alone — two
/// artifacts land in one file exactly when they share a role, so
/// regenerating overwrites rather than duplicates.
pub proof fn lemma_bootstrap_artifact_filename_by_role(k1: nat, k2: nat)
    ensures
        spec_account_filename(true, k1) == spec_account_filename(true, k2) <==> k1 % 3 == k2 % 3,
{
    reveal_strlit("bootstrap-validator/");
    reveal_strlit(".json");
    reveal_strlit("identity");
    reveal_strlit("vote-account");
    reveal_strlit("stake-account");
    assert("identity"@.len() == 8);
    assert("vote-account"@.len() == 12);
    assert("stake-account"@.len() == 13);
    assert("bootstrap-validator/"@.len() == 20);
    assert(".json"@.len() == 5);
    let kind1 = spec_account_kind(k1 % 3);
    let kind2 = spec_account_kind(k2 % 3);
    let f1 = spec_account_filename(true, k1);
    let f2 = spec_account_filename(true, k2);
    assert(f1 == "bootstrap-validator/"@ + kind1 + ".json"@);
    assert(f2 == "bootstrap-validator/"@ + kind2 + ".json"@);
    if f1 == f2 {
        assert(f1.len() == 25 + kind1.len());
        assert(f2.len() == 25 + kind2.len());
        assert(kind1 =~= f1.subrange(20, (20 + kind1.len()) as int));
        assert(kind2 =~= f2.subrange(20, (20 + kind2.len()) as int));
        lemma_account_kind_injective(k1 % 3, k2 % 3);
    }
}

/// Law: two distinct artifacts of one validator provisioning run are
/// written to two distinct paths under the config directory.
pub proof fn lemma_validator_artifact_paths_distinct(dir: Seq<char>, k1: nat, k2: nat)
    requires
        k1 != k2,
    ensures
        spec_join(dir, spec_account_filename(false, k1)) != spec_join(
            dir,
            spec_account_filename(false, k2),
        ),
{
    if spec_join(dir, spec_account_filename(false, k1)) == spec_join(
        dir,
        spec_account_filename(false, k2),
    ) {
        lemma_join_injective_name(
            dir,
            spec_account_filename(false, k1),
            spec_account_filename(false, k2),
        );
        lemma_validator_artifact_filename_unique(k1, k2);
    }
}

proof fn lemma_flag_not_emitted(f: GenesisFlagsView, dir: Seq<char>, flag: Seq<char>)
    requires
        flag == "--slots-per-epoch"@ || flag == "--target-lamports-per-signature"@,
        flag == "--slots-per-epoch"@ ==> f.slots_per_epoch is None,
        flag == "--target-lamports-per-signature"@ ==> f.target_lamports_per_signature is None,
        f.hashes_per_tick != flag,
        f.cluster_type != flag,
    ensures
        !spec_genesis_args(f, dir).contains(flag),
{
    reveal_strlit("--bootstrap-validator-stake-lamports");
    reveal_strlit("--bootstrap-validator-lamports");
    reveal_strlit("--hashes-per-tick");
    reveal_strlit("--max-genesis-archive-unpacked-size");
    reveal_strlit("--enable-warmup-epochs");
    reveal_strlit("--faucet-lamports");
    reveal_strlit("--faucet-pubkey");
    reveal_strlit("--cluster-type");
    reveal_strlit("--ledger");
    reveal_strlit("--bootstrap-validator");
    reveal_strlit("--slots-per-epoch");
    reveal_strlit("--target-lamports-per-signature");
    reveal_strlit("faucet.json");
    reveal_strlit("bootstrap-validator");
    reveal_strlit("bootstrap-validator/identity.json");
    reveal_strlit("bootstrap-validator/stake-account.json");
    reveal_strlit("bootstrap-validator/vote-account.json");
    let head = seq![
        "--bootstrap-validator-stake-lamports"@,
        spec_udec(
            spec_opt_or(
                f.bootstrap_validator_stake_lamports,
                DEFAULT_BOOTSTRAP_NODE_STAKE_LAMPORTS,
            ) as nat,
        ),
        "--bootstrap-validator-lamports"@,
        spec_udec(
            spec_opt_or(f.bootstrap_validator_lamports, DEFAULT_BOOTSTRAP_NODE_LAMPORTS) as nat,
        ),
        "--hashes-per-tick"@,
        f.hashes_per_tick,
        "--max-genesis-archive-unpacked-size"@,
        spec_udec(
            spec_opt_or(
                f.max_genesis_archive_unpacked_size,
                DEFAULT_MAX_GENESIS_ARCHIVE_UNPACKED_SIZE,
            ) as nat,
        ),
    ];
    let warmup = if f.enable_warmup_epochs {
        seq!["--enable-warmup-epochs"@]
    } else {
        Seq::<Seq<char>>::empty()
    };
    let mid = seq![
        "--faucet-lamports"@,
        spec_udec(spec_opt_or(f.faucet_lamports, DEFAULT_FAUCET_LAMPORTS) as nat),
        "--faucet-pubkey"@,
        spec_join(dir, "faucet.json"@),
        "--cluster-type"@,
        f.cluster_type,
        "--ledger"@,
        spec_join(dir, "bootstrap-validator"@),
        "--bootstrap-validator"@,
        spec_join(dir, "bootstrap-validator/identity.json"@),
        spec_join(dir, "bootstrap-validator/stake-account.json"@),
        spec_join(dir, "bootstrap-validator/vote-account.json"@),
    ];
    let slots = match f.slots_per_epoch {
        Some(n) => seq!["--slots-per-epoch"@, spec_udec(n as nat)],
        None => Seq::<Seq<char>>::empty(),
    };
    let target = match f.target_lamports_per_signature {
        Some(n) => seq!["--target-lamports-per-signature"@, spec_udec(n as nat)],
        None => Seq::<Seq<char>>::empty(),
    };
    assert(spec_genesis_args(f, dir) == head + warmup + mid + slots + target);
    assert("--slots-per-epoch"@.len() == 17 && "--slots-per-epoch"@[2] == 's'
        && "--slots-per-epoch"@[0] == '-' && "--slots-per-epoch"@[16] == 'h');
    assert("--target-lamports-per-signature"@.len() == 31
        && "--target-lamports-per-signature"@[2] == 't' && "--target-lamports-per-signature"@[0]
        == '-' && "--target-lamports-per-signature"@[30] == 'e');
    assert("--bootstrap-validator-stake-lamports"@.len() == 36
        && "--bootstrap-validator-stake-lamports"@[2] == 'b');
    assert("--bootstrap-validator-lamports"@.len() == 30 && "--bootstrap-validator-lamports"@[2]
        == 'b');
    assert("--hashes-per-tick"@.len() == 17 && "--hashes-per-tick"@[2] == 'h');
    assert("--max-genesis-archive-unpacked-size"@.len() == 35
        && "--max-genesis-archive-unpacked-size"@[2] == 'm');
    assert("--enable-warmup-epochs"@.len() == 22 && "--enable-warmup-epochs"@[2] == 'e');
    assert("--faucet-lamports"@.len() == 17 && "--faucet-lamports"@[2] == 'f');
    assert("--faucet-pubkey"@.len() == 15 && "--faucet-pubkey"@[2] == 'f');
    assert("--cluster-type"@.len() == 14 && "--cluster-type"@[2] == 'c');
    assert("--ledger"@.len() == 8 && "--ledger"@[2] == 'l');
    assert("--bootstrap-validator"@.len() == 21 && "--bootstrap-validator"@[2] == 'b');
    assert("faucet.json"@.len() == 11 && "faucet.json"@.last() == 'n');
    assert("bootstrap-validator"@.len() == 19 && "bootstrap-validator"@.last() == 'r');
    assert("bootstrap-validator/identity.json"@.len() == 33
        && "bootstrap-validator/identity.json"@.last() == 'n');
    assert("bootstrap-validator/stake-account.json"@.len() == 38
        && "bootstrap-validator/stake-account.json"@.last() == 'n');
    assert("bootstrap-validator/vote-account.json"@.len() == 37
        && "bootstrap-validator/vote-account.json"@.last() == 'n');
    lemma_seq_ne_at("--bootstrap-validator-stake-lamports"@, flag, 2);
    lemma_seq_ne_at("--bootstrap-validator-lamports"@, flag, 2);
    lemma_seq_ne_at("--hashes-per-tick"@, flag, 2);
    lemma_seq_ne_at("--max-genesis-archive-unpacked-size"@, flag, 2);
    lemma_seq_ne_at("--enable-warmup-epochs"@, flag, 2);
    lemma_seq_ne_at("--faucet-lamports"@, flag, 2);
    lemma_seq_ne_at("--faucet-pubkey"@, flag, 2);
    lemma_seq_ne_at("--cluster-type"@, flag, 2);
    lemma_seq_ne_at("--ledger"@, flag, 2);
    lemma_seq_ne_at("--bootstrap-validator"@, flag, 2);
    lemma_udec_ne_flag(
        spec_opt_or(
            f.bootstrap_validator_stake_lamports,
            DEFAULT_BOOTSTRAP_NODE_STAKE_LAMPORTS,
        ) as nat,
        flag,
    );
    lemma_udec_ne_flag(
        spec_opt_or(f.bootstrap_validator_lamports, DEFAULT_BOOTSTRAP_NODE_LAMPORTS) as nat,
        flag,
    );
    lemma_udec_ne_flag(
        spec_opt_or(
            f.max_genesis_archive_unpacked_size,
            DEFAULT_MAX_GENESIS_ARCHIVE_UNPACKED_SIZE,
        ) as nat,
        flag,
    );
    lemma_udec_ne_flag(spec_opt_or(f.faucet_lamports, DEFAULT_FAUCET_LAMPORTS) as nat, flag);
    lemma_join_ne(dir, "faucet.json"@, flag);
    lemma_join_ne(dir, "bootstrap-validator"@, flag);
    lemma_join_ne(dir, "bootstrap-validator/identity.json"@, flag);
    lemma_join_ne(dir, "bootstrap-validator/stake-account.json"@, flag);
    lemma_join_ne(dir, "bootstrap-validator/vote-account.json"@, flag);
    assert(!head.contains(flag));
    assert(!warmup.contains(flag));
    assert(!mid.contains(flag));
    assert(!slots.contains(flag)) by {
        match f.slots_per_epoch {
            Some(n) => {
                lemma_udec_ne_flag(n as nat, flag);
                lemma_seq_ne_at("--slots-per-epoch"@, flag, 2);
            },
            None => (),
        }
    }
    assert(!target.contains(flag)) by {
        match f.target_lamports_per_signature {
            Some(n) => {
                lemma_udec_ne_flag(n as nat, flag);
                lemma_seq_ne_at("--target-lamports-per-signature"@, flag, 2);
            },
            None => (),
        }
    }
    lemma_not_contains_concat(head, warmup, flag);
    lemma_not_contains_concat(head + warmup, mid, flag);
    lemma_not_contains_concat(head + warmup + mid, slots, flag);
    lemma_not_contains_concat(head + warmup + mid + slots, target, flag);
}

} // verus!
