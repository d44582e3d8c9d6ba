//! The configuration model: the zksolc section, the solidity section, and
//! the two together, each with its view and its default value.

use crate::settings::{empty_settings, settings_json};
use vstd::prelude::*;

verus! {

/// The zksolc version of a configuration that nobody has changed.
pub const DEFAULT_ZKSOLC_VERSION: &'static str = "1.4.1";

/// The solidity version of a configuration that nobody has changed.
pub const DEFAULT_SOLIDITY_VERSION: &'static str = "0.8.24";

/// The solidity section: the language version, kept as the caller gave it.
#[derive(Debug)]
pub struct SolidityConfig {
    pub version: String,
}

/// The zksolc section: the compiler version, kept as the caller gave it, and
/// the compiler settings, a JSON value that the library never looks into.
#[derive(Debug)]
pub struct ZksolcConfig {
    pub version: String,
    pub settings: serde_json::Value,
}

/// A whole configuration: both sections, always present.
#[derive(Debug)]
pub struct HardhatConfig {
    pub zksolc: ZksolcConfig,
    pub solidity: SolidityConfig,
}

/// What a `SolidityConfig` holds.
pub ghost struct SolidityConfigView {
    pub version: Seq<char>,
}

/// What a `ZksolcConfig` holds. The settings stand here as their compact
/// JSON text, `None` where they have none.
pub ghost struct ZksolcConfigView {
    pub version: Seq<char>,
    pub settings: Option<Seq<char>>,
}

/// What a `HardhatConfig` holds.
pub ghost struct HardhatConfigView {
    pub zksolc: ZksolcConfigView,
    pub solidity: SolidityConfigView,
}

impl HardhatConfigView {
    /// The configuration that nobody has changed: both default versions and
    /// the empty settings object.
    pub open spec fn initial() -> Self {
        HardhatConfigView {
            zksolc: ZksolcConfigView {
                version: DEFAULT_ZKSOLC_VERSION@,
                settings: Some("{}"@),
            },
            solidity: SolidityConfigView { version: DEFAULT_SOLIDITY_VERSION@ },
        }
    }

    /// This configuration with another zksolc version: the settings and the
    /// solidity section stay.
    pub open spec fn with_zksolc_version(self, version: Seq<char>) -> Self {
        HardhatConfigView {
            zksolc: ZksolcConfigView { version, settings: self.zksolc.settings },
            solidity: self.solidity,
        }
    }

    /// This configuration with another solidity version: the zksolc section
    /// stays.
    pub open spec fn with_solidity_version(self, version: Seq<char>) -> Self {
        HardhatConfigView { zksolc: self.zksolc, solidity: SolidityConfigView { version } }
    }
}

impl View for SolidityConfig {
    type V = SolidityConfigView;

    open spec fn view(&self) -> SolidityConfigView {
        SolidityConfigView { version: self.version@ }
    }
}

impl View for ZksolcConfig {
    type V = ZksolcConfigView;

    open spec fn view(&self) -> ZksolcConfigView {
        ZksolcConfigView { version: self.version@, settings: settings_json(self.settings) }
    }
}

impl View for HardhatConfig {
    type V = HardhatConfigView;

    open spec fn view(&self) -> HardhatConfigView {
        HardhatConfigView { zksolc: self.zksolc@, solidity: self.solidity@ }
    }
}

impl Clone for SolidityConfig {
    fn clone(&self) -> (copy: Self)
        ensures
            copy@ == self@,
    {
        SolidityConfig { version: self.version.clone() }
    }
}

impl Clone for ZksolcConfig {
    fn clone(&self) -> (copy: Self)
        ensures
            copy@ == self@,
    {
        ZksolcConfig { version: self.version.clone(), settings: self.settings.clone() }
    }
}

impl Clone for HardhatConfig {
    fn clone(&self) -> (copy: Self)
        ensures
            copy@ == self@,
    {
        HardhatConfig { zksolc: self.zksolc.clone(), solidity: self.solidity.clone() }
    }
}

impl Default for SolidityConfig {
    /// The section with an empty version.
    fn default() -> (section: Self)
        ensures
            section@ == (SolidityConfigView { version: Seq::empty() }),
    {
        SolidityConfig { version: String::new() }
    }
}

impl Default for ZksolcConfig {
    /// The section with an empty version and the empty settings object.
    fn default() -> (section: Self)
        ensures
            section@ == (ZksolcConfigView { version: Seq::empty(), settings: Some("{}"@) }),
    {
        ZksolcConfig { version: String::new(), settings: empty_settings() }
    }
}

impl Default for HardhatConfig {
    /// The configuration that nobody has changed.
    fn default() -> (config: Self)
        ensures
            config@ == HardhatConfigView::initial(),
    {
        HardhatConfig {
            zksolc: ZksolcConfig {
                version: DEFAULT_ZKSOLC_VERSION.to_string(),
                settings: empty_settings(),
            },
            solidity: SolidityConfig { version: DEFAULT_SOLIDITY_VERSION.to_string() },
        }
    }
}

impl HardhatConfig {
    /// The configuration that nobody has changed.
    pub fn new() -> (config: Self)
        ensures
            config@ == HardhatConfigView::initial(),
    {
        Self::default()
    }
}

} // verus!
