//! Errors of the on-chain wallet.
use vstd::prelude::*;

verus! {

/// Errors of the on-chain wallet. The variants with text hold the message
/// of the component that failed.
#[derive(Debug, PartialEq, Eq)]
pub enum BdkLibError {
    Wallet(String),
    Esplora(String),
    Persistence(String),
    Transaction(String),
    Mnemonic(String),
    Address(String),
    WalletAlreadyExists { path: String },
    WalletNotFound,
    Io(String),
}

/// The human-readable message of each error.
pub open spec fn bdk_error_message(e: BdkLibError) -> Seq<char> {
    match e {
        BdkLibError::Wallet(m) => "Wallet error: "@ + m@,
        BdkLibError::Esplora(m) => "Esplora error: "@ + m@,
        BdkLibError::Persistence(m) => "Persistence error: "@ + m@,
        BdkLibError::Transaction(m) => "Transaction error: "@ + m@,
        BdkLibError::Mnemonic(m) => "Mnemonic error: "@ + m@,
        BdkLibError::Address(m) => "Address error: "@ + m@,
        BdkLibError::WalletAlreadyExists { path } => "Wallet already exists at "@ + path@,
        BdkLibError::WalletNotFound => "Wallet not found \u{2014} run init first"@,
        BdkLibError::Io(m) => "IO error: "@ + m@,
    }
}

impl BdkLibError {
    /// Human-readable description of the error.
    pub fn message(&self) -> (r: String)
        ensures
            r@ == bdk_error_message(*self),
    {
        let (prefix, detail) = match self {
            BdkLibError::Wallet(m) => ("Wallet error: ", m.clone()),
            BdkLibError::Esplora(m) => ("Esplora error: ", m.clone()),
            BdkLibError::Persistence(m) => ("Persistence error: ", m.clone()),
            BdkLibError::Transaction(m) => ("Transaction error: ", m.clone()),
            BdkLibError::Mnemonic(m) => ("Mnemonic error: ", m.clone()),
            BdkLibError::Address(m) => ("Address error: ", m.clone()),
            BdkLibError::WalletAlreadyExists { path } => ("Wallet already exists at ", path.clone()),
            BdkLibError::WalletNotFound => ("Wallet not found \u{2014} run init first", String::new()),
            BdkLibError::Io(m) => ("IO error: ", m.clone()),
        };
        let mut r = String::from_str(prefix);
        r.append(detail.as_str());
        r
    }
}

} // verus!
