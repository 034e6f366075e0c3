//! Wallet creation from a BIP-39 mnemonic, and the values the wallet reports.
use vstd::prelude::*;

use crate::bdk::config::{network_name, Network, WalletConfig};
use crate::bdk::error::BdkLibError;
use crate::text::concat2;
use bdk_wallet::bitcoin::address::NetworkUnchecked;
use bdk_wallet::bitcoin::Address;
use bdk_wallet::bitcoin::Network as BitcoinNetwork;

verus! {

/// The descriptors a wallet was created with, as stored on disk.
#[derive(Debug)]
pub struct DescriptorConfig {
    pub external: String,
    pub internal: String,
    pub network: String,
}

/// What creating or importing a wallet gives back.
#[derive(Debug)]
pub struct WalletCreationResult {
    pub mnemonic: String,
    pub external_descriptor: String,
    pub internal_descriptor: String,
    pub network: String,
}

/// The balance of a wallet in satoshis, by confirmation state.
#[derive(Debug)]
pub struct WalletBalance {
    pub immature_sats: u64,
    pub trusted_pending_sats: u64,
    pub untrusted_pending_sats: u64,
    pub confirmed_sats: u64,
    pub total_sats: u64,
}

/// The outcome of a payment.
#[derive(Debug)]
pub struct SendResult {
    pub txid: String,
    pub amount_sats: u64,
    pub fee_sats: u64,
}

/// One wallet transaction.
#[derive(Debug)]
pub struct TxInfo {
    pub txid: String,
    pub sent_sats: u64,
    pub received_sats: u64,
    pub fee_sats: Option<u64>,
    pub confirmed: bool,
    pub confirmation_height: Option<u32>,
}

/// A receive address and its derivation index.
#[derive(Debug)]
pub struct AddressResult {
    pub address: String,
    pub index: u32,
}

impl WalletBalance {
    /// The balance with these parts; the total is their sum.
    pub fn from_parts(
        immature_sats: u64,
        trusted_pending_sats: u64,
        untrusted_pending_sats: u64,
        confirmed_sats: u64,
    ) -> (b: WalletBalance)
        requires
            immature_sats + trusted_pending_sats + untrusted_pending_sats + confirmed_sats <= u64::MAX,
        ensures
            b.immature_sats == immature_sats,
            b.trusted_pending_sats == trusted_pending_sats,
            b.untrusted_pending_sats == untrusted_pending_sats,
            b.confirmed_sats == confirmed_sats,
            b.total_sats == immature_sats + trusted_pending_sats + untrusted_pending_sats + confirmed_sats,
    {
        WalletBalance {
            immature_sats,
            trusted_pending_sats,
            untrusted_pending_sats,
            confirmed_sats,
            total_sats: confirmed_sats + trusted_pending_sats + untrusted_pending_sats + immature_sats,
        }
    }
}

impl SendResult {
    /// The outcome of a payment; a fee that cannot be computed counts as zero.
    pub fn new(txid: String, amount_sats: u64, fee_sats: Option<u64>) -> (r: SendResult)
        ensures
            r.txid == txid,
            r.amount_sats == amount_sats,
            r.fee_sats == match fee_sats {
                Some(f) => f,
                None => 0,
            },
    {
        let fee_sats = match fee_sats {
            Some(f) => f,
            None => 0,
        };
        SendResult { txid, amount_sats, fee_sats }
    }
}

impl TxInfo {
    /// A transaction, confirmed exactly when it has a confirmation height.
    pub fn new(
        txid: String,
        sent_sats: u64,
        received_sats: u64,
        fee_sats: Option<u64>,
        confirmation_height: Option<u32>,
    ) -> (t: TxInfo)
        ensures
            t.txid == txid,
            t.sent_sats == sent_sats,
            t.received_sats == received_sats,
            t.fee_sats == fee_sats,
            t.confirmed == confirmation_height is Some,
            t.confirmation_height == confirmation_height,
    {
        let confirmed = confirmation_height.is_some();
        TxInfo { txid, sent_sats, received_sats, fee_sats, confirmed, confirmation_height }
    }
}

// ---------------------------------------------------------------------------
// Mnemonics and descriptors
// ---------------------------------------------------------------------------

/// The English BIP-39 mnemonic that `phrase` spells, written back with single
/// spaces, or none when it is not one.
pub uninterp spec fn mnemonic_normalized(phrase: Seq<char>) -> Option<Seq<char>>;

/// The BIP-39 seed of a mnemonic with a passphrase.
pub uninterp spec fn bip39_seed(phrase: Seq<char>, passphrase: Seq<char>) -> Seq<u8>;

/// The BIP-32 master private key of a seed, in base58 (`xprv` on mainnet,
/// `tprv` elsewhere), or none when the seed gives no valid key.
pub uninterp spec fn master_xprv(mainnet: bool, seed: Seq<u8>) -> Option<Seq<char>>;

/// Calls `bip39::Mnemonic::from_str` and writes the mnemonic back
/// (`to_string`). Named, not described; also stated: the text written back
/// parses to itself (parsing normalises and keeps the words). The error text
/// is bip39's.
#[verifier::external_body]
fn normalize_mnemonic(phrase: &str) -> (r: Result<String, String>)
    ensures
        r matches Ok(m) ==> mnemonic_normalized(phrase@) == Some(m@),
        r matches Ok(m) ==> mnemonic_normalized(m@) == Some(m@),
        r is Err ==> mnemonic_normalized(phrase@) is None,
{
    phrase.parse::<bip39::Mnemonic>().map(|m| m.to_string()).map_err(|e| e.to_string())
}

/// The number of times `c` occurs in `s`.
pub open spec fn count_char(s: Seq<char>, c: char) -> nat
    decreases s.len(),
{
    if s.len() == 0 {
        0
    } else {
        count_char(s.drop_last(), c) + if s.last() == c {
            1nat
        } else {
            0nat
        }
    }
}

/// The number of words of a text whose words are separated by single spaces.
pub open spec fn word_count_of(s: Seq<char>) -> nat {
    if s.len() == 0 {
        0
    } else {
        count_char(s, ' ') + 1
    }
}

/// The word counts BIP-39 allows: a multiple of three from 12 to 24.
pub open spec fn valid_word_count(n: nat) -> bool {
    12 <= n <= 24 && n % 3 == 0
}

/// Calls `bip39::Mnemonic::generate(word_count)` and writes the mnemonic out
/// (`to_string`, the words joined by single spaces). bip39 refuses only a
/// word count it does not allow. The words are random; stated is that a
/// generated mnemonic has the asked number of words and parses to itself.
/// The error text is bip39's.
#[verifier::external_body]
fn generate_mnemonic(word_count: usize) -> (r: Result<String, String>)
    ensures
        r is Ok == valid_word_count(word_count as nat),
        r matches Ok(m) ==> mnemonic_normalized(m@) == Some(m@) && word_count_of(m@) == word_count,
{
    bip39::Mnemonic::generate(word_count).map(|m| m.to_string()).map_err(|e| e.to_string())
}

/// Calls `bip39::Mnemonic::parse` and then `to_seed(passphrase)`: the seed of
/// the mnemonic with the passphrase, which exists exactly when the text is a
/// mnemonic.
#[verifier::external_body]
fn mnemonic_seed(phrase: &str, passphrase: &str) -> (r: Option<[u8; 64]>)
    ensures
        r is Some == mnemonic_normalized(phrase@) is Some,
        r matches Some(s) ==> s@ == bip39_seed(phrase@, passphrase@),
{
    bip39::Mnemonic::parse(phrase).ok().map(|m| m.to_seed(passphrase))
}

/// Calls `Xpriv::new_master` and writes the key in base58 (`to_string`).
/// Named; only whether the network is mainnet reaches the key. The error
/// text is bitcoin's.
#[verifier::external_body]
fn master_key(network: Network, seed: &[u8; 64]) -> (r: Result<String, String>)
    ensures
        r matches Ok(x) ==> master_xprv(network == Network::Bitcoin, seed@) == Some(x@),
        r is Err ==> master_xprv(network == Network::Bitcoin, seed@) is None,
{
    let net = match network { Network::Bitcoin => BitcoinNetwork::Bitcoin, Network::Testnet => BitcoinNetwork::Testnet, Network::Testnet4 => BitcoinNetwork::Testnet4, Network::Signet => BitcoinNetwork::Signet, Network::Regtest => BitcoinNetwork::Regtest };
    bdk_wallet::bitcoin::bip32::Xpriv::new_master(net, seed).map(|x| x.to_string()).map_err(|e| e.to_string())
}

/// A BIP-84 single-key descriptor below the master key `xprv`: coin type 0
/// on mainnet and 1 elsewhere, account 0, the receive (0) or change (1)
/// chain.
pub open spec fn descriptor_text(xprv: Seq<char>, mainnet: bool, change: bool) -> Seq<char> {
    "wpkh("@ + xprv + "/84'/"@ + (if mainnet {
        "0"@
    } else {
        "1"@
    }) + "'/0'/"@ + (if change {
        "1"@
    } else {
        "0"@
    }) + "/*)"@
}

/// The receive and change descriptors of a mnemonic, without passphrase, on a
/// network.
pub open spec fn descriptors_for(phrase: Seq<char>, network: Network) -> Option<(Seq<char>, Seq<char>)> {
    let mainnet = network == Network::Bitcoin;
    match master_xprv(mainnet, bip39_seed(phrase, ""@)) {
        Some(x) => Some((descriptor_text(x, mainnet, false), descriptor_text(x, mainnet, true))),
        None => None,
    }
}

fn descriptor(xprv: &str, mainnet: bool, change: bool) -> (d: String)
    ensures
        d@ == descriptor_text(xprv@, mainnet, change),
{
    let mut d = String::from_str("wpkh(");
    d.append(xprv);
    d.append("/84'/");
    d.append(if mainnet {
        "0"
    } else {
        "1"
    });
    d.append("'/0'/");
    d.append(if change {
        "1"
    } else {
        "0"
    });
    d.append("/*)");
    d
}

fn derive_descriptors(phrase: &str, network: Network) -> (r: Result<(String, String), BdkLibError>)
    requires
        mnemonic_normalized(phrase@) is Some,
    ensures
        match r {
            Ok((external, internal)) => descriptors_for(phrase@, network) == Some(
                (external@, internal@),
            ),
            Err(e) => descriptors_for(phrase@, network) is None && e is Wallet,
        },
{
    let seed = match mnemonic_seed(phrase, "") {
        Some(s) => s,
        None => {
            return Err(BdkLibError::Wallet(String::from_str("Failed to derive master key")));
        },
    };
    let xprv = match master_key(network, &seed) {
        Ok(x) => x,
        Err(e) => {
            return Err(BdkLibError::Wallet(concat2("Failed to derive master key: ", e.as_str())));
        },
    };
    let mainnet = match network {
        Network::Bitcoin => true,
        _ => false,
    };
    Ok((descriptor(xprv.as_str(), mainnet, false), descriptor(xprv.as_str(), mainnet, true)))
}

/// What creating a wallet from the mnemonic `phrase` gives: the mnemonic,
/// the network's name and the mnemonic's descriptors, or a wallet error when
/// the seed gives no master key.
pub open spec fn creation_outcome(
    r: Result<WalletCreationResult, BdkLibError>,
    phrase: Seq<char>,
    network: Network,
) -> bool {
    match r {
        Ok(w) => w.mnemonic@ == phrase && w.network@ == network_name(network) && descriptors_for(
            phrase,
            network,
        ) == Some((w.external_descriptor@, w.internal_descriptor@)),
        Err(e) => descriptors_for(phrase, network) is None && e is Wallet,
    }
}

/// The wallet a valid mnemonic creates on the configured network.
pub fn wallet_creation(config: &WalletConfig, phrase: String) -> (r: Result<
    WalletCreationResult,
    BdkLibError,
>)
    requires
        mnemonic_normalized(phrase@) is Some,
    ensures
        creation_outcome(r, phrase@, config.network),
{
    let (external, internal) = match derive_descriptors(phrase.as_str(), config.network) {
        Ok(d) => d,
        Err(e) => return Err(e),
    };
    Ok(
        WalletCreationResult {
            mnemonic: phrase,
            external_descriptor: external,
            internal_descriptor: internal,
            network: String::from_str(config.network.name()),
        },
    )
}

/// The error for a configuration whose wallet already exists.
pub fn wallet_exists_error(config: &WalletConfig) -> (e: BdkLibError)
    ensures
        e matches BdkLibError::WalletAlreadyExists { path } && path@ == config.data_dir@,
{
    BdkLibError::WalletAlreadyExists { path: config.data_dir.clone() }
}

/// What creating a fresh wallet gives: refused when a wallet exists;
/// otherwise the wallet of some valid 12-word mnemonic, or a wallet error
/// when its seed gives no master key.
pub open spec fn init_outcome(
    r: Result<WalletCreationResult, BdkLibError>,
    config: WalletConfig,
    wallet_exists: bool,
) -> bool {
    if wallet_exists {
        r matches Err(e) && e matches BdkLibError::WalletAlreadyExists { path } && path@
            == config.data_dir@
    } else {
        exists|m: Seq<char>|
            #![trigger mnemonic_normalized(m)]
            mnemonic_normalized(m) == Some(m) && word_count_of(m) == 12 && creation_outcome(
                r,
                m,
                config.network,
            )
    }
}

/// What importing `mnemonic` gives: refused when a wallet exists, a mnemonic
/// error when the text is not a mnemonic, and otherwise the wallet of the
/// mnemonic as bip39 writes it back.
pub open spec fn import_outcome(
    r: Result<WalletCreationResult, BdkLibError>,
    config: WalletConfig,
    mnemonic: Seq<char>,
    wallet_exists: bool,
) -> bool {
    if wallet_exists {
        r matches Err(e) && e matches BdkLibError::WalletAlreadyExists { path } && path@
            == config.data_dir@
    } else {
        match mnemonic_normalized(mnemonic) {
            None => r matches Err(e) && e is Mnemonic,
            Some(m) => creation_outcome(r, m, config.network),
        }
    }
}

/// Create a wallet from a fresh 12-word mnemonic, unless one exists already
/// (`wallet_exists`). The caller stores the result.
pub fn init_wallet(config: &WalletConfig, wallet_exists: bool) -> (r: Result<
    WalletCreationResult,
    BdkLibError,
>)
    ensures
        init_outcome(r, *config, wallet_exists),
{
    if wallet_exists {
        return Err(wallet_exists_error(config));
    }
    let phrase = match generate_mnemonic(12) {
        Ok(m) => m,
        Err(e) => return Err(BdkLibError::Mnemonic(e)),
    };
    let ghost m = phrase@;
    let r = wallet_creation(config, phrase);
    assert(mnemonic_normalized(m) == Some(m) && word_count_of(m) == 12 && creation_outcome(
        r,
        m,
        config.network,
    ));
    r
}

/// Import a wallet from a mnemonic, unless one exists already
/// (`wallet_exists`). The mnemonic is kept as bip39 writes it back. The
/// caller stores the result.
pub fn import_wallet(config: &WalletConfig, mnemonic_str: &str, wallet_exists: bool) -> (r: Result<
    WalletCreationResult,
    BdkLibError,
>)
    ensures
        import_outcome(r, *config, mnemonic_str@, wallet_exists),
{
    if wallet_exists {
        return Err(wallet_exists_error(config));
    }
    let phrase = match normalize_mnemonic(mnemonic_str) {
        Ok(m) => m,
        Err(e) => return Err(BdkLibError::Mnemonic(e)),
    };
    wallet_creation(config, phrase)
}

/// The descriptors to store for a created wallet.
pub fn descriptor_config(created: &WalletCreationResult) -> (d: DescriptorConfig)
    ensures
        d.external@ == created.external_descriptor@,
        d.internal@ == created.internal_descriptor@,
        d.network@ == created.network@,
{
    DescriptorConfig {
        external: created.external_descriptor.clone(),
        internal: created.internal_descriptor.clone(),
        network: created.network.clone(),
    }
}

/// A signed transaction must be complete before it is broadcast.
pub fn require_finalized(finalized: bool) -> (r: Result<(), BdkLibError>)
    ensures
        finalized ==> r is Ok,
        !finalized ==> (r matches Err(e) && e matches BdkLibError::Transaction(m) && m@
            == "Failed to finalize transaction"@),
{
    if !finalized {
        return Err(BdkLibError::Transaction(String::from_str("Failed to finalize transaction")));
    }
    Ok(())
}

/// Restoring from the mnemonic that creating a wallet handed out gives the
/// same wallet back: importing it on the same network (where no wallet is
/// stored yet) yields the same mnemonic and the same descriptors.
pub proof fn lemma_import_restores_created_wallet(
    config: WalletConfig,
    created: WalletCreationResult,
    restored: Result<WalletCreationResult, BdkLibError>,
)
    requires
        init_outcome(Ok(created), config, false),
        import_outcome(restored, config, created.mnemonic@, false),
    ensures
        restored matches Ok(w) && w.mnemonic@ == created.mnemonic@ && w.external_descriptor@
            == created.external_descriptor@ && w.internal_descriptor@ == created.internal_descriptor@
            && w.network@ == created.network@,
{
    let m = choose|m: Seq<char>|
        #![trigger mnemonic_normalized(m)]
        mnemonic_normalized(m) == Some(m) && word_count_of(m) == 12 && creation_outcome(
            Ok(created),
            m,
            config.network,
        );
    assert(created.mnemonic@ == m);
}

/// A wallet is created once per configuration: after a call has created one
/// and the caller has stored it (so a wallet exists), creating or importing
/// again on that configuration is refused with its data directory, and the
/// refusal hands back no wallet that could be stored over the first.
pub proof fn lemma_second_creation_refused(
    config: WalletConfig,
    first: Result<WalletCreationResult, BdkLibError>,
    second_init: Result<WalletCreationResult, BdkLibError>,
    second_import: Result<WalletCreationResult, BdkLibError>,
    mnemonic: Seq<char>,
)
    requires
        init_outcome(first, config, false),
        first is Ok,
        init_outcome(second_init, config, true),
        import_outcome(second_import, config, mnemonic, true),
    ensures
        second_init matches Err(e) && e matches BdkLibError::WalletAlreadyExists { path } && path@
            == config.data_dir@,
        second_import matches Err(e) && e matches BdkLibError::WalletAlreadyExists { path } && path@
            == config.data_dir@,
{
}

// ---------------------------------------------------------------------------
// Payment addresses
// ---------------------------------------------------------------------------

/// The output script of the address `to` on `network`, or none when `to` is
/// not an address of that network.
pub uninterp spec fn address_script(to: Seq<char>, network: Network) -> Option<Seq<u8>>;

/// Calls bitcoin's `Address::from_str` (through `str::parse`), then `require_network`, and gives the
/// address's output script (`script_pubkey`) as bytes. Named, not described;
/// the error text is bitcoin's.
#[verifier::external_body]
fn parse_address(to: &str, network: Network) -> (r: Result<Vec<u8>, String>)
    ensures
        r matches Ok(s) ==> address_script(to@, network) == Some(s@),
        r is Err ==> address_script(to@, network) is None,
{
    let net = match network { Network::Bitcoin => BitcoinNetwork::Bitcoin, Network::Testnet => BitcoinNetwork::Testnet, Network::Testnet4 => BitcoinNetwork::Testnet4, Network::Signet => BitcoinNetwork::Signet, Network::Regtest => BitcoinNetwork::Regtest };
    let address = to.parse::<Address<NetworkUnchecked>>().map_err(|e| e.to_string())?;
    Ok(address.require_network(net).map_err(|e| e.to_string())?.script_pubkey().to_bytes())
}

/// The output script a payment to `to` goes to, or an address error when `to`
/// is not an address of the wallet's network.
pub fn payment_script(to: &str, network: Network) -> (r: Result<Vec<u8>, BdkLibError>)
    ensures
        match r {
            Ok(s) => address_script(to@, network) == Some(s@),
            Err(e) => address_script(to@, network) is None && e is Address,
        },
{
    match parse_address(to, network) {
        Ok(s) => Ok(s),
        Err(m) => Err(BdkLibError::Address(m)),
    }
}

} // verus!
