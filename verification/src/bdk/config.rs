//! Where a wallet keeps its files, per network.
use vstd::prelude::*;

use crate::text::str_eq;

verus! {

/// The bitcoin networks a wallet can run on.
#[derive(Clone, Copy, Debug, PartialEq, Eq)]
pub enum Network {
    Bitcoin,
    Testnet,
    Testnet4,
    Signet,
    Regtest,
}

/// The name bitcoin gives a network.
pub open spec fn network_name(n: Network) -> Seq<char> {
    match n {
        Network::Bitcoin => "bitcoin"@,
        Network::Testnet => "testnet"@,
        Network::Testnet4 => "testnet4"@,
        Network::Signet => "signet"@,
        Network::Regtest => "regtest"@,
    }
}

/// The directory that holds a network's wallet files.
pub open spec fn network_dir(n: Network) -> Seq<char> {
    match n {
        Network::Bitcoin => "mainnet"@,
        Network::Testnet => "testnet"@,
        Network::Signet => "signet"@,
        Network::Regtest => "regtest"@,
        Network::Testnet4 => "unknown"@,
    }
}

impl Network {
    /// The name bitcoin gives the network.
    pub fn name(&self) -> (s: &'static str)
        ensures
            s@ == network_name(*self),
    {
        match self {
            Network::Bitcoin => "bitcoin",
            Network::Testnet => "testnet",
            Network::Testnet4 => "testnet4",
            Network::Signet => "signet",
            Network::Regtest => "regtest",
        }
    }

    /// The directory that holds the network's wallet files.
    pub fn dir_name(&self) -> (s: &'static str)
        ensures
            s@ == network_dir(*self),
    {
        match self {
            Network::Bitcoin => "mainnet",
            Network::Testnet => "testnet",
            Network::Signet => "signet",
            Network::Regtest => "regtest",
            Network::Testnet4 => "unknown",
        }
    }
}

/// The network a setting names: `mainnet` or `bitcoin`, `testnet`,
/// `signet`; anything else is regtest.
pub open spec fn network_for_setting(s: Seq<char>) -> Network {
    if s == "mainnet"@ || s == "bitcoin"@ {
        Network::Bitcoin
    } else if s == "testnet"@ {
        Network::Testnet
    } else if s == "signet"@ {
        Network::Signet
    } else {
        Network::Regtest
    }
}

/// Each network has its own name, and the name of a network that a
/// setting can select is a setting that selects that network again, as is
/// the name of its wallet directory; networks a setting can select keep
/// their wallets in distinct directories.
pub proof fn lemma_network_names(a: Network, b: Network)
    ensures
        network_name(a) == network_name(b) ==> a == b,
        a != Network::Testnet4 ==> network_for_setting(network_name(a)) == a,
        a != Network::Testnet4 ==> network_for_setting(network_dir(a)) == a,
        a != Network::Testnet4 && b != Network::Testnet4 && network_dir(a) == network_dir(b) ==> a == b,
{
    reveal_strlit("bitcoin");
    reveal_strlit("mainnet");
    reveal_strlit("testnet");
    reveal_strlit("testnet4");
    reveal_strlit("signet");
    reveal_strlit("regtest");
    let bitcoin = "bitcoin"@;
    let mainnet = "mainnet"@;
    let testnet = "testnet"@;
    let testnet4 = "testnet4"@;
    let signet = "signet"@;
    let regtest = "regtest"@;
    assert(bitcoin.len() == 7 && mainnet.len() == 7 && testnet.len() == 7 && regtest.len() == 7);
    assert(testnet4.len() == 8 && signet.len() == 6);
    assert(bitcoin[0] == 'b' && mainnet[0] == 'm' && testnet[0] == 't' && regtest[0] == 'r');
    assert(bitcoin != testnet && bitcoin != regtest && testnet != regtest);
    assert(mainnet != testnet && mainnet != signet && mainnet != regtest);
    assert(bitcoin != testnet4 && bitcoin != signet && testnet != testnet4 && testnet != signet);
    assert(testnet4 != signet && testnet4 != regtest && signet != regtest);
}

/// The network a setting names (regtest unless it names another).
pub fn network_from_setting(s: &str) -> (n: Network)
    ensures
        n == network_for_setting(s@),
{
    if str_eq(s, "mainnet") || str_eq(s, "bitcoin") {
        Network::Bitcoin
    } else if str_eq(s, "testnet") {
        Network::Testnet
    } else if str_eq(s, "signet") {
        Network::Signet
    } else {
        Network::Regtest
    }
}

/// A relative path `name` appended to `base`, with one separator between
/// them (none after an empty base).
pub open spec fn path_join(base: Seq<char>, name: Seq<char>) -> Seq<char> {
    if base.len() == 0 {
        name
    } else if base.last() == '/' {
        base + name
    } else {
        base + seq!['/'] + name
    }
}

fn join(base: &str, name: &str) -> (r: String)
    ensures
        r@ == path_join(base@, name@),
{
    let n = base.unicode_len();
    let mut r = String::from_str(base);
    if n > 0 && base.get_char(n - 1) != '/' {
        crate::text::push_char(&mut r, '/');
    }
    r.append(name);
    r
}

/// The data directory of a wallet under the home directory `home`.
pub open spec fn wallet_data_dir(home: Seq<char>, network: Network) -> Seq<char> {
    path_join(path_join(home, ".magic-carpet"@), network_dir(network))
}

/// The home directory of the user, from the environment. Calls
/// `dirs::home_dir` and writes the path as text (lossily). Nothing is stated:
/// it depends on the environment.
#[verifier::external_body]
fn home_dir() -> (r: Option<String>) {
    dirs::home_dir().map(|p| p.to_string_lossy().into_owned())
}

/// Where a wallet keeps its files, and the Esplora server it syncs with.
#[derive(Debug)]
pub struct WalletConfig {
    pub network: Network,
    pub esplora_url: String,
    pub data_dir: String,
}

impl WalletConfig {
    /// A configuration whose files live under `home`, or under the working
    /// directory when there is no home.
    pub fn with_home(network: Network, esplora_url: &str, home: Option<String>) -> (c: WalletConfig)
        ensures
            c.network == network,
            c.esplora_url@ == esplora_url@,
            c.data_dir@ == wallet_data_dir(
                match home {
                    Some(h) => h@,
                    None => "."@,
                },
                network,
            ),
    {
        let home = match home {
            Some(h) => h,
            None => String::from_str("."),
        };
        let base = join(home.as_str(), ".magic-carpet");
        let data_dir = join(base.as_str(), network.dir_name());
        WalletConfig { network, esplora_url: String::from_str(esplora_url), data_dir }
    }

    /// A configuration whose files live under the user's home directory
    /// (`~/.magic-carpet/<network>`).
    pub fn new(network: Network, esplora_url: &str) -> (c: WalletConfig)
        ensures
            c.network == network,
            c.esplora_url@ == esplora_url@,
            exists|home: Seq<char>| c.data_dir@ == wallet_data_dir(home, network),
    {
        let home = home_dir();
        let ghost h = match crate::dcosl::query::opt_view(home) {
            Some(h) => h,
            None => "."@,
        };
        let c = WalletConfig::with_home(network, esplora_url, home);
        assert(c.data_dir@ == wallet_data_dir(h, network));
        c
    }

    /// The file holding the mnemonic.
    pub fn mnemonic_path(&self) -> (p: String)
        ensures
            p@ == path_join(self.data_dir@, "mnemonic"@),
    {
        join(self.data_dir.as_str(), "mnemonic")
    }

    /// The file holding the descriptors.
    pub fn descriptors_path(&self) -> (p: String)
        ensures
            p@ == path_join(self.data_dir@, "descriptors.json"@),
    {
        join(self.data_dir.as_str(), "descriptors.json")
    }

    /// The wallet database.
    pub fn db_path(&self) -> (p: String)
        ensures
            p@ == path_join(self.data_dir@, "wallet.db"@),
    {
        join(self.data_dir.as_str(), "wallet.db")
    }
}

/// The Esplora server used when none is configured.
pub open spec fn default_esplora_url() -> Seq<char> {
    "http://localhost:3002"@
}

/// The configuration from the network and Esplora settings, if given:
/// regtest and the local Esplora server by default.
pub fn config_from_settings(network: Option<&str>, esplora_url: Option<&str>) -> (c: WalletConfig)
    ensures
        c.network == match network {
            Some(n) => network_for_setting(n@),
            None => Network::Regtest,
        },
        c.esplora_url@ == match esplora_url {
            Some(u) => u@,
            None => default_esplora_url(),
        },
        exists|home: Seq<char>| c.data_dir@ == wallet_data_dir(home, c.network),
{
    let network = match network {
        Some(n) => network_from_setting(n),
        None => Network::Regtest,
    };
    let esplora = match esplora_url {
        Some(u) => u,
        None => "http://localhost:3002",
    };
    WalletConfig::new(network, esplora)
}

} // verus!
