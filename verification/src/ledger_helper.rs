//! Post-genesis ledger operations: shred-version derivation, snapshot
//! warping, and bank-hash computation.
//!
//! Each operation validates that the ledger directory exists before any
//! external invocation is planned, and interprets the ledger tool's
//! outcome afterwards.

use vstd::prelude::*;

use crate::CommandSpec;
use crate::errors::GenesisError;
use crate::genesis::{spec_join, join_path, DEFAULT_MAX_GENESIS_ARCHIVE_UNPACKED_SIZE};
use crate::text::{
    dec_val, is_u16_string, parse_decimal_u16, spec_trim, spec_udec, trim_str, u16_digits,
    u64_to_string,
};

verus! {

/// Fails fast when the ledger directory has not been produced yet:
/// every ledger operation requires a prior genesis run.
pub fn ledger_directory_exists(ledger_exists: bool) -> (r: Result<(), GenesisError>)
    ensures
        ledger_exists <==> r is Ok,
        !ledger_exists ==> (r == Err::<(), GenesisError>(GenesisError::LedgerNotFound)),
{
    if ledger_exists {
        Ok(())
    } else {
        Err(GenesisError::LedgerNotFound)
    }
}

/// Parses a decimal `u16` from `input` after trimming whitespace;
/// anything else is a parse error.
pub fn parse_u16_from_str(input: &str) -> (r: Result<u16, GenesisError>)
    ensures
        r is Ok <==> is_u16_string(spec_trim(input@)),
        r matches Ok(v) ==> v == dec_val(u16_digits(spec_trim(input@))),
        !is_u16_string(spec_trim(input@)) ==> (r == Err::<u16, GenesisError>(
            GenesisError::InvalidU16,
        )),
{
    match parse_decimal_u16(input) {
        Some(v) => Ok(v),
        None => Err(GenesisError::InvalidU16),
    }
}

/// The ledger-tool invocation that derives the shred version, bounded
/// by the default unpacked-archive cap.
pub open spec fn spec_shred_version_args(ledger_dir: Seq<char>) -> Seq<Seq<char>> {
    seq![
        "-l"@,
        ledger_dir,
        "shred-version"@,
        "--max-genesis-archive-unpacked-size"@,
        spec_udec(DEFAULT_MAX_GENESIS_ARCHIVE_UNPACKED_SIZE as nat),
    ]
}

/// The ledger-tool invocation that snapshots slot zero and warps to
/// `warp_slot`.
pub open spec fn spec_create_snapshot_args(ledger_dir: Seq<char>, warp_slot: u64) -> Seq<
    Seq<char>,
> {
    seq![
        "-l"@,
        ledger_dir,
        "create-snapshot"@,
        "0"@,
        ledger_dir,
        "--warp-slot"@,
        spec_udec(warp_slot as nat),
    ]
}

/// The ledger-tool invocation that computes the bank hash, halted at
/// slot zero.
pub open spec fn spec_bank_hash_args(ledger_dir: Seq<char>) -> Seq<Seq<char>> {
    seq!["-l"@, ledger_dir, "bank-hash"@, "--halt-at-slot"@, "0"@]
}

/// Plans and interprets the ledger tool's subcommands.
pub struct LedgerHelper {}

impl LedgerHelper {
    /// Plans the shred-version derivation. Fails with a not-found error,
    /// before any external invocation, when the ledger directory does
    /// not exist.
    pub fn get_shred_version(ledger_dir: &str, ledger_exists: bool) -> (r: Result<
        CommandSpec,
        GenesisError,
    >)
        ensures
            ledger_exists <==> r is Ok,
            !ledger_exists ==> (r matches Err(e) && e == GenesisError::LedgerNotFound),
            r matches Ok(cmd) ==> cmd.program@ == "solana-ledger-tool"@
                && cmd.args.deep_view() == spec_shred_version_args(ledger_dir@),
    {
        if let Err(e) = ledger_directory_exists(ledger_exists) {
            return Err(e);
        }
        let ghost d = ledger_dir@;
        let mut args: Vec<String> = Vec::new();
        args.push(String::from_str("-l"));
        args.push(String::from_str(ledger_dir));
        args.push(String::from_str("shred-version"));
        args.push(String::from_str("--max-genesis-archive-unpacked-size"));
        args.push(u64_to_string(DEFAULT_MAX_GENESIS_ARCHIVE_UNPACKED_SIZE));
        proof {
            assert(args.deep_view() =~~= spec_shred_version_args(d));
        }
        Ok(CommandSpec { program: String::from_str("solana-ledger-tool"), args })
    }

    /// Interprets the shred-version tool outcome: a non-zero exit
    /// surfaces the tool's diagnostic text; otherwise the trimmed
    /// standard output must parse as a `u16`.
    pub fn shred_version_from_output(success: bool, stdout: &str, stderr: String) -> (r: Result<
        u16,
        GenesisError,
    >)
        ensures
            !success ==> (r matches Err(e) && e matches GenesisError::LedgerToolFailed {
                subcommand: sc,
                stderr: se,
            } && sc@ == "shred-version"@ && se == stderr),
            success ==> {
                &&& r is Ok <==> is_u16_string(spec_trim(stdout@))
                &&& (r matches Ok(v) ==> v == dec_val(u16_digits(spec_trim(stdout@))))
                &&& (!is_u16_string(spec_trim(stdout@)) ==> r == Err::<u16, GenesisError>(
                    GenesisError::InvalidU16,
                ))
            },
    {
        if !success {
            return Err(
                GenesisError::LedgerToolFailed {
                    subcommand: String::from_str("shred-version"),
                    stderr,
                },
            );
        }
        parse_u16_from_str(stdout)
    }

    /// The `accounts_hash_cache` directory under the ledger directory.
    /// The caller must reset it (delete if present, then create) before
    /// each snapshot run, so that a stale cache is never reused.
    pub fn accounts_hash_cache_dir(ledger_dir: &str) -> (r: String)
        ensures
            r@ == spec_join(ledger_dir@, "accounts_hash_cache"@),
    {
        join_path(ledger_dir, "accounts_hash_cache")
    }

    /// Plans the snapshot creation at slot zero with the requested warp
    /// target. Fails with a not-found error, before any external
    /// invocation, when the ledger directory does not exist.
    pub fn create_snapshot(warp_slot: u64, ledger_dir: &str, ledger_exists: bool) -> (r: Result<
        CommandSpec,
        GenesisError,
    >)
        ensures
            ledger_exists <==> r is Ok,
            !ledger_exists ==> (r matches Err(e) && e == GenesisError::LedgerNotFound),
            r matches Ok(cmd) ==> cmd.program@ == "solana-ledger-tool"@
                && cmd.args.deep_view() == spec_create_snapshot_args(ledger_dir@, warp_slot),
    {
        if let Err(e) = ledger_directory_exists(ledger_exists) {
            return Err(e);
        }
        let ghost d = ledger_dir@;
        let mut args: Vec<String> = Vec::new();
        args.push(String::from_str("-l"));
        args.push(String::from_str(ledger_dir));
        args.push(String::from_str("create-snapshot"));
        args.push(String::from_str("0"));
        args.push(String::from_str(ledger_dir));
        args.push(String::from_str("--warp-slot"));
        args.push(u64_to_string(warp_slot));
        proof {
            assert(args.deep_view() =~~= spec_create_snapshot_args(d, warp_slot));
        }
        Ok(CommandSpec { program: String::from_str("solana-ledger-tool"), args })
    }

    /// Interprets the snapshot tool outcome: a non-zero exit surfaces
    /// the tool's diagnostic text.
    pub fn check_snapshot(success: bool, stderr: String) -> (r: Result<(), GenesisError>)
        ensures
            success <==> r is Ok,
            !success ==> (r matches Err(e) && e matches GenesisError::LedgerToolFailed {
                subcommand: sc,
                stderr: se,
            } && sc@ == "create-snapshot"@ && se == stderr),
    {
        if success {
            Ok(())
        } else {
            Err(
                GenesisError::LedgerToolFailed {
                    subcommand: String::from_str("create-snapshot"),
                    stderr,
                },
            )
        }
    }

    /// Plans the bank-hash computation, halted at slot zero. Fails with
    /// a not-found error, before any external invocation, when the
    /// ledger directory does not exist.
    pub fn create_bank_hash(ledger_dir: &str, ledger_exists: bool) -> (r: Result<
        CommandSpec,
        GenesisError,
    >)
        ensures
            ledger_exists <==> r is Ok,
            !ledger_exists ==> (r matches Err(e) && e == GenesisError::LedgerNotFound),
            r matches Ok(cmd) ==> cmd.program@ == "solana-ledger-tool"@
                && cmd.args.deep_view() == spec_bank_hash_args(ledger_dir@),
    {
        if let Err(e) = ledger_directory_exists(ledger_exists) {
            return Err(e);
        }
        let ghost d = ledger_dir@;
        let mut args: Vec<String> = Vec::new();
        args.push(String::from_str("-l"));
        args.push(String::from_str(ledger_dir));
        args.push(String::from_str("bank-hash"));
        args.push(String::from_str("--halt-at-slot"));
        args.push(String::from_str("0"));
        proof {
            assert(args.deep_view() =~~= spec_bank_hash_args(d));
        }
        Ok(CommandSpec { program: String::from_str("solana-ledger-tool"), args })
    }

    /// Interprets the bank-hash tool outcome: a successful run returns
    /// the standard output trimmed of surrounding whitespace; a
    /// non-zero exit surfaces the tool's diagnostic text.
    pub fn bank_hash_from_output(success: bool, stdout: &str, stderr: String) -> (r: Result<
        String,
        GenesisError,
    >)
        ensures
            success <==> r is Ok,
            r matches Ok(h) ==> h@ == spec_trim(stdout@),
            !success ==> (r matches Err(e) && e matches GenesisError::LedgerToolFailed {
                subcommand: sc,
                stderr: se,
            } && sc@ == "bank-hash"@ && se == stderr),
    {
        if success {
            Ok(trim_str(stdout))
        } else {
            Err(
                GenesisError::LedgerToolFailed {
                    subcommand: String::from_str("bank-hash"),
                    stderr,
                },
            )
        }
    }
}

} // verus!
