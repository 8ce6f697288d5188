//! The Hardhat configuration file written into each compilation workspace.
use vstd::prelude::*;

verus! {

/// Where Hardhat looks for sources unless told otherwise.
pub const DEFAULT_CONTRACTS_LOCATION: &'static str = "./contracts";

/// The compiler version used unless a request names one.
pub const DEFAULT_ZKSOLC_VERSION: &'static str = "1.5.6";

/// The Solidity version used unless a request names one.
pub const DEFAULT_SOLIDITY_VERSION: &'static str = "0.8.24";

/// The imports and network definitions at the head of every configuration.
pub const CONFIG_PREFIX: &'static str = "
import { HardhatUserConfig } from \"hardhat/config\";

import \"@matterlabs/hardhat-zksync-solc\";
import \"@matterlabs/hardhat-zksync-verify\";

export const zkSyncTestnet = process.env.NODE_ENV == \"test\"
? {
    url: \"http://127.0.0.1:8011\",
    ethNetwork: \"http://127.0.0.1:8045\",
    zksync: true,
  }
: {
    url: \"https://sepolia.era.zksync.dev\",
    ethNetwork: \"sepolia\",
    zksync: true,
    verifyURL: \"https://explorer.sepolia.era.zksync.dev/contract_verification\"
  };

export const zkSyncMainnet = {
    url: \"https://mainnet.era.zksync.io\",
    ethNetwork: \"mainnet\",
    zksync: true,
    verifyURL: \"https://zksync2-mainnet-explorer.zksync.io/contract_verification\"
  };
";

/// The text between the prefix and the zksolc version.
pub const CONFIG_BEFORE_ZKSOLC: &'static str = "
const config: HardhatUserConfig = {
  zksolc: {
    version: \"";

/// The text between the zksolc version and the Solidity version.
pub const CONFIG_BEFORE_SOLIDITY: &'static str = "\",
    settings: {},
  },
  defaultNetwork: \"zkSyncTestnet\",
  networks: {
    hardhat: {
      zksync: false,
    },
    zkSyncTestnet,
    zkSyncMainnet,
  },
  solidity: {
    version: \"";

/// The text between the Solidity version and the paths.
pub const CONFIG_BEFORE_PATHS: &'static str = "\",
  },
  paths: ";

/// The text after the paths.
pub const CONFIG_SUFFIX: &'static str = ",
};

export default config;
";

/// The compiler section: its version and settings (JSON text).
#[derive(Debug, Clone, PartialEq)]
pub struct ZksolcConfig {
    pub version: String,
    pub settings: String,
}

/// The Solidity section.
#[derive(Debug, Clone, PartialEq)]
pub struct SolidityConfig {
    pub version: String,
}

/// Where the project's files are.
#[derive(Debug, Clone, PartialEq)]
pub struct ProjectPathsUserConfig {
    pub sources: String,
}

/// How the paths section is written into the configuration.
pub open spec fn paths_display(sources: Seq<char>) -> Seq<char> {
    "{sources: \""@ + sources + "\"}"@
}

impl ProjectPathsUserConfig {
    /// The default paths: sources in `./contracts`.
    pub fn new() -> (r: ProjectPathsUserConfig)
        ensures
            r.sources@ == DEFAULT_CONTRACTS_LOCATION@,
    {
        ProjectPathsUserConfig { sources: String::from_str(DEFAULT_CONTRACTS_LOCATION) }
    }

    /// The paths section as written into the configuration.
    pub fn to_display_string(&self) -> (r: String)
        ensures
            r@ == paths_display(self.sources@),
    {
        let mut s = String::from_str("{sources: \"");
        s.append(self.sources.as_str());
        s.append("\"}");
        s
    }
}

/// A Hardhat configuration.
#[derive(Debug, Clone, PartialEq)]
pub struct HardhatConfig {
    pub zksolc: ZksolcConfig,
    pub solidity: SolidityConfig,
    pub paths: ProjectPathsUserConfig,
}

/// The configuration file for the given compiler and Solidity versions and
/// sources folder.
pub open spec fn config_text(zksolc: Seq<char>, solidity: Seq<char>, sources: Seq<char>) -> Seq<
    char,
> {
    CONFIG_PREFIX@ + CONFIG_BEFORE_ZKSOLC@ + zksolc + CONFIG_BEFORE_SOLIDITY@ + solidity
        + CONFIG_BEFORE_PATHS@ + paths_display(sources) + CONFIG_SUFFIX@
}

/// The configuration holds the default versions and sources folder.
pub open spec fn is_default_config(c: HardhatConfig) -> bool {
    &&& c.zksolc.version@ == DEFAULT_ZKSOLC_VERSION@
    &&& c.zksolc.settings@ == "{}"@
    &&& c.solidity.version@ == DEFAULT_SOLIDITY_VERSION@
    &&& c.paths.sources@ == DEFAULT_CONTRACTS_LOCATION@
}

impl HardhatConfig {
    /// The default configuration.
    pub fn new() -> (r: HardhatConfig)
        ensures
            is_default_config(r),
    {
        HardhatConfig {
            zksolc: ZksolcConfig {
                version: String::from_str(DEFAULT_ZKSOLC_VERSION),
                settings: String::from_str("{}"),
            },
            solidity: SolidityConfig { version: String::from_str(DEFAULT_SOLIDITY_VERSION) },
            paths: ProjectPathsUserConfig::new(),
        }
    }

    /// The configuration file's text.
    pub fn to_string_config(&self) -> (r: String)
        ensures
            r@ == config_text(self.zksolc.version@, self.solidity.version@, self.paths.sources@),
    {
        let mut s = String::from_str(CONFIG_PREFIX);
        s.append(CONFIG_BEFORE_ZKSOLC);
        s.append(self.zksolc.version.as_str());
        s.append(CONFIG_BEFORE_SOLIDITY);
        s.append(self.solidity.version.as_str());
        s.append(CONFIG_BEFORE_PATHS);
        let paths = self.paths.to_display_string();
        s.append(paths.as_str());
        s.append(CONFIG_SUFFIX);
        s
    }
}

impl Default for HardhatConfig {
    fn default() -> (r: HardhatConfig)
        ensures
            is_default_config(r),
    {
        HardhatConfig::new()
    }
}

/// Builds a configuration from the default one.
#[derive(Debug)]
pub struct HardhatConfigBuilder {
    config: HardhatConfig,
}

impl View for HardhatConfigBuilder {
    type V = HardhatConfig;

    closed spec fn view(&self) -> HardhatConfig {
        self.config
    }
}

impl HardhatConfigBuilder {
    /// A builder holding the default configuration.
    pub fn new() -> (r: HardhatConfigBuilder)
        ensures
            is_default_config(r@),
    {
        HardhatConfigBuilder { config: HardhatConfig::new() }
    }

    /// Sets the compiler version.
    pub fn zksolc_version(&mut self, version: &str) -> (r: &mut Self)
        ensures
            r@.zksolc.version@ == version@,
            r@.zksolc.settings == old(self)@.zksolc.settings,
            r@.solidity == old(self)@.solidity,
            r@.paths == old(self)@.paths,
            *final(self) == *final(r),
    {
        self.config.zksolc.version = String::from_str(version);
        self
    }

    /// Sets the Solidity version.
    pub fn solidity_version(&mut self, version: &str) -> (r: &mut Self)
        ensures
            r@.solidity.version@ == version@,
            r@.zksolc == old(self)@.zksolc,
            r@.paths == old(self)@.paths,
            *final(self) == *final(r),
    {
        self.config.solidity.version = String::from_str(version);
        self
    }

    /// Sets the sources folder.
    pub fn paths_sources(&mut self, target_path: &str) -> (r: &mut Self)
        ensures
            r@.paths.sources@ == target_path@,
            r@.zksolc == old(self)@.zksolc,
            r@.solidity == old(self)@.solidity,
            *final(self) == *final(r),
    {
        self.config.paths.sources = String::from_str(target_path);
        self
    }

    /// The configuration built so far.
    pub fn build(&self) -> (r: HardhatConfig)
        ensures
            r.zksolc.version@ == self@.zksolc.version@,
            r.zksolc.settings@ == self@.zksolc.settings@,
            r.solidity.version@ == self@.solidity.version@,
            r.paths.sources@ == self@.paths.sources@,
    {
        HardhatConfig {
            zksolc: ZksolcConfig {
                version: self.config.zksolc.version.clone(),
                settings: self.config.zksolc.settings.clone(),
            },
            solidity: SolidityConfig { version: self.config.solidity.version.clone() },
            paths: ProjectPathsUserConfig { sources: self.config.paths.sources.clone() },
        }
    }
}

/// The configuration text for a compiler version, a Solidity version and an
/// optional sources folder, built as the compile and verify commands build it.
pub fn hardhat_config_content(zksolc_version: &str, solidity_version: &str, sources: Option<&str>) -> (r: String)
    ensures
        r@ == config_text(
            zksolc_version@,
            solidity_version@,
            match sources {
                Some(p) => p@,
                None => DEFAULT_CONTRACTS_LOCATION@,
            },
        ),
{
    let mut builder = HardhatConfigBuilder::new();
    builder.zksolc_version(zksolc_version);
    builder.solidity_version(solidity_version);
    if let Some(p) = sources {
        builder.paths_sources(p);
    }
    builder.build().to_string_config()
}

/// The configuration names each version in its own section: the zksolc
/// version stands right after the zksolc header and is followed by the
/// header of the Solidity section, and the Solidity version stands right
/// after that header and is followed by the paths header, after which the
/// sources folder is named, quoted, and the rest of the file follows.
pub proof fn lemma_config_sections(zksolc: Seq<char>, solidity: Seq<char>, sources: Seq<char>)
    ensures
        ({
            let t = config_text(zksolc, solidity, sources);
            let z0: int = CONFIG_PREFIX@.len() + CONFIG_BEFORE_ZKSOLC@.len() + 0int;
            let z1: int = z0 + zksolc.len();
            let s0: int = z1 + CONFIG_BEFORE_SOLIDITY@.len();
            let s1: int = s0 + solidity.len();
            &&& t.subrange(0, z0) == CONFIG_PREFIX@ + CONFIG_BEFORE_ZKSOLC@
            &&& t.subrange(z0, z1) == zksolc
            &&& t.subrange(z1, s0) == CONFIG_BEFORE_SOLIDITY@
            &&& t.subrange(s0, s1) == solidity
            &&& t.subrange(s1, s1 + CONFIG_BEFORE_PATHS@.len()) == CONFIG_BEFORE_PATHS@
            &&& t.subrange(s1 + CONFIG_BEFORE_PATHS@.len(), t.len() as int) == "{sources: \""@ + sources
                + "\"}"@ + CONFIG_SUFFIX@
        }),
{
    let t = config_text(zksolc, solidity, sources);
    let h = CONFIG_PREFIX@ + CONFIG_BEFORE_ZKSOLC@;
    let a = h + zksolc;
    let b = a + CONFIG_BEFORE_SOLIDITY@;
    let c = b + solidity;
    let d = c + CONFIG_BEFORE_PATHS@;
    let rest = paths_display(sources) + CONFIG_SUFFIX@;
    assert(t =~= d + rest);
    assert(t.subrange(0, h.len() as int) =~= h);
    assert(t.subrange(h.len() as int, a.len() as int) =~= zksolc);
    assert(t.subrange(a.len() as int, b.len() as int) =~= CONFIG_BEFORE_SOLIDITY@);
    assert(t.subrange(b.len() as int, c.len() as int) =~= solidity);
    assert(t.subrange(c.len() as int, d.len() as int) =~= CONFIG_BEFORE_PATHS@);
    assert(t.subrange(d.len() as int, t.len() as int) =~= rest);
}

} // verus!
