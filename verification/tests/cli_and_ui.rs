use magic_carpet::bdk::config::{Network, WalletConfig};
use magic_carpet::bdk::error::BdkLibError;
use magic_carpet::cli::{
    bdk_cli_error, create_wallet, init_mode, invoice_description, parse_amount, parse_bool_flag,
    phoenixd_cli_error, required_flag, InitMode,
};
use magic_carpet::phoenixd::error::PhoenixdError;
use magic_carpet::ui::display::{
    bounty_badge, category_chip_class, format_sats, marketplace_categories, npub_display,
    wallet_card_style,
};
use magic_carpet::ui::mock_data::{mock_bounties, mock_items, mock_lists, nostr_state, wallet_state};
use magic_carpet::ui::state::{MarketplaceState, NostrState, WalletState};
use magic_carpet::ui::types::{BountyStatus, WalletVariant};

#[test]
fn bool_flags() {
    assert!(!parse_bool_flag(None, "generate").unwrap());
    assert!(parse_bool_flag(Some("true"), "generate").unwrap());
    let e = parse_bool_flag(Some("yes"), "generate").unwrap_err();
    assert_eq!(e.message, "--generate is a boolean flag, got unexpected value: yes");
    assert_eq!(e.code, "INVALID_ARGS");
    assert_eq!(e.fix, "Use --generate without a value, or remove it");
}

#[test]
fn init_modes() {
    assert!(matches!(init_mode(true, None), Ok(InitMode::Generate)));
    match init_mode(false, Some("words")) {
        Ok(InitMode::Import(m)) => assert_eq!(m, "words"),
        other => panic!("unexpected: {other:?}"),
    }
    let both = init_mode(true, Some("w")).unwrap_err();
    assert_eq!(both.message, "--generate and --import are mutually exclusive");
    let neither = init_mode(false, None).unwrap_err();
    assert_eq!(neither.code, "MISSING_ARG");
    assert_eq!(neither.next_actions.len(), 1);
    assert_eq!(neither.next_actions[0].command, "bdk-agcli init --generate");
}

#[test]
fn required_flags_and_amounts() {
    assert_eq!(required_flag(Some("bc1q"), "to", "address").unwrap(), "bc1q");
    let e = required_flag(None, "to", "address").unwrap_err();
    assert_eq!(e.message, "--to is required");
    assert_eq!(e.fix, "Provide --to=<address>");
    assert_eq!(parse_amount("21000").unwrap(), 21000);
    assert_eq!(parse_amount("+7").unwrap(), 7);
    assert_eq!(parse_amount("18446744073709551615").unwrap(), u64::MAX);
    let e = parse_amount("18446744073709551616").unwrap_err();
    assert_eq!(e.message, "--amount must be a number");
    assert!(parse_amount("12a").is_err());
    assert!(parse_amount("").is_err());
    assert_eq!(invoice_description(None), "magic-carpet invoice");
    assert_eq!(invoice_description(Some("tip")), "tip");
}

#[test]
fn command_errors_for_library_errors() {
    let e = bdk_cli_error(&BdkLibError::WalletNotFound);
    assert_eq!(e.code, "WALLET_NOT_FOUND");
    assert_eq!(e.fix, "Run `bdk-agcli init --generate` first");
    let e = bdk_cli_error(&BdkLibError::WalletAlreadyExists { path: "/w".into() });
    assert_eq!(e.code, "WALLET_EXISTS");
    assert_eq!(e.fix, "Wallet already exists at /w. Delete to reinit.");
    assert_eq!(e.message, "Wallet already exists at /w");
    let e = bdk_cli_error(&BdkLibError::Esplora("down".into()));
    assert_eq!(e.fix, "Check that Esplora is running: `just infra-up`");
    assert_eq!(bdk_cli_error(&BdkLibError::Transaction("x".into())).code, "TX_ERROR");
    assert_eq!(bdk_cli_error(&BdkLibError::Io("x".into())).fix, "Check error details");
    let p = phoenixd_cli_error(&PhoenixdError::Http("timeout".into()));
    assert!(p.retryable);
    assert_eq!(p.code, "HTTP_ERROR");
    assert_eq!(p.message, "HTTP error: timeout");
    assert_eq!(p.fix, "Check PhoenixD is running and PHOENIXD_PASSWORD is set");
    assert!(!phoenixd_cli_error(&PhoenixdError::Deserialize("d".into())).retryable);
}

#[test]
fn create_wallet_follows_mode() {
    let c = WalletConfig::with_home(Network::Regtest, "e", Some("/h".into()));
    assert!(matches!(
        create_wallet(&c, &InitMode::Import("x".into()), false),
        Err(BdkLibError::Mnemonic(_))
    ));
    assert!(matches!(
        create_wallet(&c, &InitMode::Generate, true),
        Err(BdkLibError::WalletAlreadyExists { .. })
    ));
    assert!(create_wallet(&c, &InitMode::Generate, false).is_ok());
}

#[test]
fn sats_are_grouped_by_thousands() {
    assert_eq!(format_sats(0), "0");
    assert_eq!(format_sats(999), "999");
    assert_eq!(format_sats(1000), "1,000");
    assert_eq!(format_sats(1_250_000), "1,250,000");
    assert_eq!(format_sats(u64::MAX), "18,446,744,073,709,551,615");
    assert_eq!(format_sats(350_000).replace(',', ""), "350000");
}

#[test]
fn keys_are_shortened_for_display() {
    let npub = "npub1a2b3c4d5e6f7890abcdef1234567890abcdef1234567890abcdef12345678";
    assert_eq!(npub_display(Some(npub)), "npub1a2b3c4d...12345678");
    assert_eq!(npub_display(Some("short")), "short");
    assert_eq!(npub_display(Some("exactly-twenty-bytes")), "exactly-twenty-bytes");
    assert_eq!(npub_display(None), "Not connected");
}

#[test]
fn badges_and_cards() {
    assert_eq!(bounty_badge(BountyStatus::Open).1, "Open");
    assert_eq!(bounty_badge(BountyStatus::Expired).0, "bg-gray-400/10 text-gray-400 border border-gray-400/20");
    assert_eq!(wallet_card_style(WalletVariant::Lightning), ("ph ph-lightning", "Lightning", "text-amber-400"));
    assert_eq!(wallet_card_style(WalletVariant::Bitcoin).1, "Bitcoin (on-chain)");
}

#[test]
fn sample_data() {
    let lists = mock_lists();
    assert_eq!(lists.len(), 6);
    assert_eq!(lists[0].coordinate, "30001:abc123:best-bitcoin-books");
    assert_eq!(lists[2].description, "A comprehensive guide to Nostr clients across all platforms \u{2014} mobile, desktop, and web.");
    assert_eq!(lists[3].curator_nip05, None);
    assert_eq!(lists[5].zap_count, 1580);
    let bounties = mock_bounties();
    assert_eq!(bounties.len(), 3);
    assert_eq!(bounties[2].status, BountyStatus::Fulfilled);
    assert_eq!(bounties[0].reward_sats, 50_000);
    let items = mock_items();
    assert_eq!(items.len(), 4);
    assert_eq!(items[2].fields[2], ("Rating".to_string(), "4.5/5".to_string()));
    let n = nostr_state();
    assert_eq!(n.connected_relays.len(), 3);
    assert!(n.has_signer);
    let w = wallet_state();
    assert_eq!((w.btc_balance_sats, w.ln_balance_sats), (1_250_000, 350_000));
    assert_eq!(npub_display(n.npub.as_deref()), "npub1a2b3c4d...12345678");
}

#[test]
fn default_states() {
    let m = MarketplaceState::default();
    assert!(m.search_query.is_empty() && m.selected_category.is_none() && !m.is_loading);
    let n = NostrState::default();
    assert!(n.connected_relays.is_empty() && n.npub.is_none() && !n.has_signer);
    let w = WalletState::default();
    assert_eq!(w.btc_balance_sats + w.ln_balance_sats, 0);
}

#[test]
fn category_filters() {
    let cats = marketplace_categories();
    assert_eq!(cats, vec!["All", "Books", "Wallets", "Nostr", "Podcasts", "Privacy", "Development"]);
    assert!(category_chip_class("All").contains("bg-orange-500"));
    assert!(category_chip_class("Books").contains("bg-gray-900"));
}

#[test]
fn multibyte_keys_are_cut_at_byte_offsets() {
    let key = "\u{e9}\u{e9}\u{e9}\u{e9}\u{e9}\u{e9}abcdefghijklmnop";
    assert_eq!(npub_display(Some(key)), "\u{e9}\u{e9}\u{e9}\u{e9}\u{e9}\u{e9}...ijklmnop");
}
