//! The decisions of the agent command lines for the on-chain wallet and for
//! PhoenixD: reading flags, and turning library errors into command errors
//! with a code and a fix.
use vstd::prelude::*;

use crate::bdk::config::WalletConfig;
use crate::bdk::error::{bdk_error_message, BdkLibError};
use crate::bdk::wallet::{
    import_outcome, import_wallet, init_outcome, init_wallet, WalletCreationResult,
};
use crate::phoenixd::error::{phoenixd_error_code, phoenixd_error_message, PhoenixdError};
use crate::text::{concat2, parse_u64, str_eq, unsigned_from_str};

verus! {

/// A follow-up command suggested to the caller.
#[derive(Debug)]
pub struct NextAction {
    pub command: String,
    pub description: String,
}

/// A failed command: what went wrong, a machine-readable code, how to fix
/// it, whether retrying may help, and follow-up commands.
#[derive(Debug)]
pub struct CliError {
    pub message: String,
    pub code: String,
    pub fix: String,
    pub retryable: bool,
    pub next_actions: Vec<NextAction>,
}

/// `e` has this message, code and fix, is not retryable and suggests nothing.
pub open spec fn cli_error_is(e: CliError, message: Seq<char>, code: Seq<char>, fix: Seq<char>) -> bool {
    &&& e.message@ == message
    &&& e.code@ == code
    &&& e.fix@ == fix
    &&& !e.retryable
    &&& e.next_actions@.len() == 0
}

fn cli_error(message: String, code: &str, fix: String) -> (e: CliError)
    ensures
        cli_error_is(e, message@, code@, fix@),
{
    CliError { message, code: String::from_str(code), fix, retryable: false, next_actions: Vec::new() }
}

/// Reading a boolean flag: absent is `false`, `true` is `true`, anything else
/// is refused.
pub fn parse_bool_flag(value: Option<&str>, name: &str) -> (r: Result<bool, CliError>)
    ensures
        value is None ==> r == Ok::<bool, CliError>(false),
        value matches Some(v) && v@ == "true"@ ==> r == Ok::<bool, CliError>(true),
        value is Some && value->0@ != "true"@ ==> (r matches Err(e) && cli_error_is(
            e,
            "--"@ + name@ + " is a boolean flag, got unexpected value: "@ + value->0@,
            "INVALID_ARGS"@,
            "Use --"@ + name@ + " without a value, or remove it"@,
        )),
{
    match value {
        None => Ok(false),
        Some(v) => {
            if str_eq(v, "true") {
                Ok(true)
            } else {
                let mut message = concat2("--", name);
                message.append(" is a boolean flag, got unexpected value: ");
                message.append(v);
                let mut fix = concat2("Use --", name);
                fix.append(" without a value, or remove it");
                Err(cli_error(message, "INVALID_ARGS", fix))
            }
        },
    }
}

/// A flag that must be given: its value, or a missing-argument error that
/// shows the expected form `--name=<placeholder>`.
pub fn required_flag(value: Option<&str>, name: &str, placeholder: &str) -> (r: Result<String, CliError>)
    ensures
        value matches Some(v) ==> (r matches Ok(s) && s@ == v@),
        value is None ==> (r matches Err(e) && cli_error_is(
            e,
            "--"@ + name@ + " is required"@,
            "MISSING_ARG"@,
            "Provide --"@ + name@ + "=<"@ + placeholder@ + ">"@,
        )),
{
    match value {
        Some(v) => Ok(String::from_str(v)),
        None => {
            let mut message = concat2("--", name);
            message.append(" is required");
            let mut fix = concat2("Provide --", name);
            fix.append("=<");
            fix.append(placeholder);
            fix.append(">");
            Err(cli_error(message, "MISSING_ARG", fix))
        },
    }
}

/// Reading an amount of satoshis (`str::parse::<u64>`).
pub fn parse_amount(value: &str) -> (r: Result<u64, CliError>)
    ensures
        unsigned_from_str(value@, u64::MAX as nat) matches Some(n) ==> r == Ok::<u64, CliError>(
            n as u64,
        ),
        unsigned_from_str(value@, u64::MAX as nat) is None ==> (r matches Err(e) && cli_error_is(
            e,
            "--amount must be a number"@,
            "INVALID_ARGS"@,
            "Provide amount in satoshis"@,
        )),
{
    match parse_u64(value) {
        Some(n) => Ok(n),
        None => Err(
            cli_error(
                String::from_str("--amount must be a number"),
                "INVALID_ARGS",
                String::from_str("Provide amount in satoshis"),
            ),
        ),
    }
}

/// The description of an invoice, `magic-carpet invoice` when none is given.
pub fn invoice_description(value: Option<&str>) -> (r: String)
    ensures
        r@ == match value {
            Some(v) => v@,
            None => "magic-carpet invoice"@,
        },
{
    match value {
        Some(v) => String::from_str(v),
        None => String::from_str("magic-carpet invoice"),
    }
}

/// How a wallet is initialised: a fresh mnemonic, or an imported one.
#[derive(Debug)]
pub enum InitMode {
    Generate,
    Import(String),
}

/// Choosing how to initialise a wallet from `--generate` and `--import`:
/// exactly one of them must be given.
pub fn init_mode(generate: bool, import: Option<&str>) -> (r: Result<InitMode, CliError>)
    ensures
        generate && import is Some ==> (r matches Err(e) && cli_error_is(
            e,
            "--generate and --import are mutually exclusive"@,
            "INVALID_ARGS"@,
            "Use either --generate or --import, not both"@,
        )),
        !generate && import is None ==> (r matches Err(e) && e.message@
            == "Specify --generate or --import"@ && e.code@ == "MISSING_ARG"@ && e.fix@
            == "Use --generate to create a new wallet, or --import=<mnemonic>"@ && !e.retryable
            && e.next_actions@.len() == 1 && e.next_actions@[0].command@ == "bdk-agcli init --generate"@
            && e.next_actions@[0].description@ == "Generate new wallet"@),
        generate && import is None ==> r matches Ok(InitMode::Generate),
        !generate && import is Some ==> (r matches Ok(InitMode::Import(s)) && s@ == import->0@),
{
    match import {
        Some(m) => {
            if generate {
                Err(
                    cli_error(
                        String::from_str("--generate and --import are mutually exclusive"),
                        "INVALID_ARGS",
                        String::from_str("Use either --generate or --import, not both"),
                    ),
                )
            } else {
                Ok(InitMode::Import(String::from_str(m)))
            }
        },
        None => {
            if generate {
                Ok(InitMode::Generate)
            } else {
                let mut e = cli_error(
                    String::from_str("Specify --generate or --import"),
                    "MISSING_ARG",
                    String::from_str("Use --generate to create a new wallet, or --import=<mnemonic>"),
                );
                e.next_actions.push(
                    NextAction {
                        command: String::from_str("bdk-agcli init --generate"),
                        description: String::from_str("Generate new wallet"),
                    },
                );
                Err(e)
            }
        },
    }
}

/// Creating the wallet the way `mode` says (`wallet_exists` tells whether a
/// wallet is already stored).
pub fn create_wallet(config: &WalletConfig, mode: &InitMode, wallet_exists: bool) -> (r: Result<
    WalletCreationResult,
    BdkLibError,
>)
    ensures
        mode is Generate ==> init_outcome(r, *config, wallet_exists),
        mode matches InitMode::Import(m) ==> import_outcome(r, *config, m@, wallet_exists),
{
    match mode {
        InitMode::Generate => init_wallet(config, wallet_exists),
        InitMode::Import(m) => import_wallet(config, m.as_str(), wallet_exists),
    }
}

/// The command-line code of a wallet error.
pub open spec fn bdk_error_code(e: BdkLibError) -> Seq<char> {
    match e {
        BdkLibError::Wallet(_) => "WALLET_ERROR"@,
        BdkLibError::Esplora(_) => "ESPLORA_ERROR"@,
        BdkLibError::Persistence(_) => "PERSISTENCE_ERROR"@,
        BdkLibError::Transaction(_) => "TX_ERROR"@,
        BdkLibError::Mnemonic(_) => "MNEMONIC_ERROR"@,
        BdkLibError::Address(_) => "ADDRESS_ERROR"@,
        BdkLibError::WalletAlreadyExists { .. } => "WALLET_EXISTS"@,
        BdkLibError::WalletNotFound => "WALLET_NOT_FOUND"@,
        BdkLibError::Io(_) => "IO_ERROR"@,
    }
}

/// How to fix a wallet error.
pub open spec fn bdk_error_fix(e: BdkLibError) -> Seq<char> {
    match e {
        BdkLibError::WalletNotFound => "Run `bdk-agcli init --generate` first"@,
        BdkLibError::WalletAlreadyExists { path } => "Wallet already exists at "@ + path@
            + ". Delete to reinit."@,
        BdkLibError::Esplora(_) => "Check that Esplora is running: `just infra-up`"@,
        _ => "Check error details"@,
    }
}

/// A wallet error as a command error: its message, code and fix.
pub fn bdk_cli_error(e: &BdkLibError) -> (c: CliError)
    ensures
        cli_error_is(c, bdk_error_message(*e), bdk_error_code(*e), bdk_error_fix(*e)),
{
    let code = match e {
        BdkLibError::Wallet(_) => "WALLET_ERROR",
        BdkLibError::Esplora(_) => "ESPLORA_ERROR",
        BdkLibError::Persistence(_) => "PERSISTENCE_ERROR",
        BdkLibError::Transaction(_) => "TX_ERROR",
        BdkLibError::Mnemonic(_) => "MNEMONIC_ERROR",
        BdkLibError::Address(_) => "ADDRESS_ERROR",
        BdkLibError::WalletAlreadyExists { .. } => "WALLET_EXISTS",
        BdkLibError::WalletNotFound => "WALLET_NOT_FOUND",
        BdkLibError::Io(_) => "IO_ERROR",
    };
    let fix = match e {
        BdkLibError::WalletNotFound => String::from_str("Run `bdk-agcli init --generate` first"),
        BdkLibError::WalletAlreadyExists { path } => {
            let mut f = concat2("Wallet already exists at ", path.as_str());
            f.append(". Delete to reinit.");
            f
        },
        BdkLibError::Esplora(_) => String::from_str("Check that Esplora is running: `just infra-up`"),
        _ => String::from_str("Check error details"),
    };
    cli_error(e.message(), code, fix)
}

/// The fix suggested for every PhoenixD error.
pub open spec fn phoenixd_fix() -> Seq<char> {
    "Check PhoenixD is running and PHOENIXD_PASSWORD is set"@
}

/// A PhoenixD error as a command error: transport errors may be retried.
pub fn phoenixd_cli_error(e: &PhoenixdError) -> (c: CliError)
    ensures
        c.message@ == phoenixd_error_message(*e),
        c.code@ == phoenixd_error_code(*e),
        c.fix@ == phoenixd_fix(),
        c.retryable == (*e is Http),
        c.next_actions@.len() == 0,
{
    let mut c = cli_error(
        e.message(),
        e.code(),
        String::from_str("Check PhoenixD is running and PHOENIXD_PASSWORD is set"),
    );
    c.retryable = e.retryable();
    c
}

} // verus!
