use magic_carpet::bdk::config::{config_from_settings, network_from_setting, Network, WalletConfig};
use magic_carpet::bdk::error::BdkLibError;
use magic_carpet::bdk::wallet::{
    descriptor_config, import_wallet, init_wallet, payment_script, require_finalized, SendResult,
    TxInfo,
    WalletBalance,
};
use magic_carpet::phoenixd::client::{
    basic_auth_header, deserialize_error, invoice_form, response_body, settings_from_config,
    PhoenixdSettings,
};
use magic_carpet::phoenixd::error::PhoenixdError;

const ABANDON: &str = "abandon abandon abandon abandon abandon abandon abandon abandon abandon abandon abandon about";

fn config(network: Network) -> WalletConfig {
    WalletConfig::with_home(network, "http://localhost:3002", Some("/home/u".to_string()))
}

fn master_xprv(network: bdk_wallet::bitcoin::Network, phrase: &str) -> String {
    let seed = bip39::Mnemonic::parse(phrase).unwrap().to_seed("");
    bdk_wallet::bitcoin::bip32::Xpriv::new_master(network, &seed).unwrap().to_string()
}

#[test]
fn config_paths_per_network() {
    let c = config(Network::Regtest);
    assert_eq!(c.data_dir, "/home/u/.magic-carpet/regtest");
    assert_eq!(c.mnemonic_path(), "/home/u/.magic-carpet/regtest/mnemonic");
    assert_eq!(c.descriptors_path(), "/home/u/.magic-carpet/regtest/descriptors.json");
    assert_eq!(c.db_path(), "/home/u/.magic-carpet/regtest/wallet.db");
    assert_eq!(config(Network::Bitcoin).data_dir, "/home/u/.magic-carpet/mainnet");
    assert_eq!(config(Network::Testnet4).data_dir, "/home/u/.magic-carpet/unknown");
    let no_home = WalletConfig::with_home(Network::Signet, "e", None);
    assert_eq!(no_home.data_dir, "./.magic-carpet/signet");
    let slash = WalletConfig::with_home(Network::Testnet, "e", Some("/".to_string()));
    assert_eq!(slash.data_dir, "/.magic-carpet/testnet");
}

#[test]
fn config_new_uses_home_directory() {
    let c = WalletConfig::new(Network::Regtest, "http://e");
    assert!(c.data_dir.ends_with("/.magic-carpet/regtest"));
    assert_eq!(c.esplora_url, "http://e");
}

#[test]
fn network_settings() {
    assert_eq!(network_from_setting("mainnet"), Network::Bitcoin);
    assert_eq!(network_from_setting("bitcoin"), Network::Bitcoin);
    assert_eq!(network_from_setting("testnet"), Network::Testnet);
    assert_eq!(network_from_setting("signet"), Network::Signet);
    assert_eq!(network_from_setting("regtest"), Network::Regtest);
    assert_eq!(network_from_setting("anything"), Network::Regtest);
    assert_eq!(Network::Bitcoin.name(), "bitcoin");
    assert_eq!(Network::Testnet4.name(), "testnet4");
}

#[test]
fn import_derives_bip84_descriptors() {
    let w = import_wallet(&config(Network::Regtest), ABANDON, false).unwrap();
    let x = master_xprv(bdk_wallet::bitcoin::Network::Regtest, ABANDON);
    assert!(x.starts_with("tprv"));
    assert_eq!(w.external_descriptor, format!("wpkh({x}/84'/1'/0'/0/*)"));
    assert_eq!(w.internal_descriptor, format!("wpkh({x}/84'/1'/0'/1/*)"));
    assert_eq!(w.network, "regtest");
    assert_eq!(w.mnemonic, ABANDON);

    let m = import_wallet(&config(Network::Bitcoin), ABANDON, false).unwrap();
    let x = master_xprv(bdk_wallet::bitcoin::Network::Bitcoin, ABANDON);
    assert_eq!(
        x,
        "xprv9s21ZrQH143K3GJpoapnV8SFfukcVBSfeCficPSGfubmSFDxo1kuHnLisriDvSnRRuL2Qrg5ggqHKNVpxR86QEC8w35uxmGoggxtQTPvfUu"
    );
    assert_eq!(m.external_descriptor, format!("wpkh({x}/84'/0'/0'/0/*)"));
    assert_eq!(m.network, "bitcoin");
}

#[test]
fn import_normalises_the_mnemonic() {
    let spaced = ABANDON.replace(' ', "   ");
    let w = import_wallet(&config(Network::Regtest), &spaced, false).unwrap();
    assert_eq!(w.mnemonic, ABANDON);
}

#[test]
fn import_refuses_bad_mnemonic_and_existing_wallet() {
    assert!(matches!(
        import_wallet(&config(Network::Regtest), "not a mnemonic", false),
        Err(BdkLibError::Mnemonic(_))
    ));
    match import_wallet(&config(Network::Regtest), ABANDON, true) {
        Err(BdkLibError::WalletAlreadyExists { path }) => {
            assert_eq!(path, "/home/u/.magic-carpet/regtest")
        }
        other => panic!("unexpected: {other:?}"),
    }
}

#[test]
fn init_generates_twelve_words() {
    let w = init_wallet(&config(Network::Signet), false).unwrap();
    assert_eq!(w.mnemonic.split(' ').count(), 12);
    let again = import_wallet(&config(Network::Signet), &w.mnemonic, false).unwrap();
    assert_eq!(again.external_descriptor, w.external_descriptor);
    assert_eq!(w.network, "signet");
    let d = descriptor_config(&w);
    assert_eq!(d.external, w.external_descriptor);
    assert_eq!(d.internal, w.internal_descriptor);
    assert!(matches!(
        init_wallet(&config(Network::Signet), true),
        Err(BdkLibError::WalletAlreadyExists { .. })
    ));
}

#[test]
fn balances_and_transactions() {
    let b = WalletBalance::from_parts(1, 2, 3, 4);
    assert_eq!(b.total_sats, 10);
    assert_eq!(b.confirmed_sats, 4);
    let t = TxInfo::new("ab".into(), 5, 6, None, Some(100));
    assert!(t.confirmed);
    assert_eq!(t.confirmation_height, Some(100));
    assert!(!TxInfo::new("cd".into(), 0, 0, Some(1), None).confirmed);
    assert!(require_finalized(true).is_ok());
    assert_eq!(
        require_finalized(false).unwrap_err().message(),
        "Transaction error: Failed to finalize transaction"
    );
}

#[test]
fn wallet_error_messages() {
    assert_eq!(BdkLibError::WalletNotFound.message(), "Wallet not found \u{2014} run init first");
    assert_eq!(
        BdkLibError::WalletAlreadyExists { path: "/p".into() }.message(),
        "Wallet already exists at /p"
    );
    assert_eq!(BdkLibError::Io("disk".into()).message(), "IO error: disk");
}

#[test]
fn phoenixd_basic_auth() {
    assert_eq!(basic_auth_header("pw"), "Basic OnB3");
    assert_eq!(basic_auth_header(""), "Basic Og==");
    let s = PhoenixdSettings::new("http://node:9740//", "secret");
    assert_eq!(s.base_url, "http://node:9740");
    assert_eq!(s.auth_header, "Basic OnNlY3JldA==");
    assert_eq!(s.url("getinfo"), "http://node:9740/getinfo");
}

#[test]
fn phoenixd_settings_from_config() {
    let s = settings_from_config(None, Some("pw".into())).unwrap();
    assert_eq!(s.base_url, "http://localhost:9740");
    match settings_from_config(Some("http://x".into()), None) {
        Err(PhoenixdError::Api { message }) => assert_eq!(message, "PHOENIXD_PASSWORD env var not set"),
        other => panic!("unexpected: {other:?}"),
    }
}

#[test]
fn phoenixd_invoice_form_and_responses() {
    let form = invoice_form(1500, "coffee", Some("id-1"));
    assert_eq!(
        form,
        vec![
            ("amountSat".to_string(), "1500".to_string()),
            ("description".to_string(), "coffee".to_string()),
            ("externalId".to_string(), "id-1".to_string()),
        ]
    );
    assert_eq!(invoice_form(0, "", None).len(), 2);
    assert_eq!(response_body(true, "{}".into()).unwrap(), "{}");
    assert_eq!(response_body(false, "nope".into()).unwrap_err().message(), "API error: nope");
    assert_eq!(deserialize_error("bad", "x").message(), "Deserialization error: bad: x");
    assert_eq!(PhoenixdError::Http("t".into()).code(), "HTTP_ERROR");
    assert!(PhoenixdError::Http("t".into()).retryable());
    assert!(!PhoenixdError::Api { message: "m".into() }.retryable());
}

#[test]
fn config_from_settings_defaults() {
    let c = config_from_settings(None, None);
    assert_eq!(c.network, Network::Regtest);
    assert_eq!(c.esplora_url, "http://localhost:3002");
    let c = config_from_settings(Some("bitcoin"), Some("https://esplora"));
    assert_eq!(c.network, Network::Bitcoin);
    assert_eq!(c.esplora_url, "https://esplora");
    assert!(c.data_dir.ends_with(".magic-carpet/mainnet"));
}

#[test]
fn send_result_fee_defaults_to_zero() {
    assert_eq!(SendResult::new("t".into(), 5, None).fee_sats, 0);
    assert_eq!(SendResult::new("t".into(), 5, Some(141)).fee_sats, 141);
}

#[test]
fn payment_scripts_follow_the_network() {
    let mainnet = "bc1qw508d6qejxtdg4y5r3zarvary0c5xw7kv8f3t4";
    let script = payment_script(mainnet, Network::Bitcoin).unwrap();
    assert_eq!(script.len(), 22);
    assert_eq!(&script[..2], &[0x00, 0x14]);
    assert_eq!(script[2], 0x75);
    assert!(matches!(payment_script(mainnet, Network::Regtest), Err(BdkLibError::Address(_))));
    assert!(matches!(payment_script("not an address", Network::Regtest), Err(BdkLibError::Address(_))));
}

#[test]
fn fresh_wallets_have_twelve_words() {
    for _ in 0..3 {
        let w = init_wallet(&config(Network::Regtest), false).unwrap();
        assert_eq!(w.mnemonic.matches(' ').count(), 11);
    }
}
