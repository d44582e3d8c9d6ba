//! The builder: a configuration that starts from the defaults and takes
//! other versions one call at a time.

use crate::model::{HardhatConfig, HardhatConfigView};
use vstd::prelude::*;

verus! {

/// Collects the versions of a configuration. A builder can hand out any
/// number of configurations, each a copy of what it holds at that moment.
pub struct HardhatConfigBuilder {
    config: HardhatConfig,
}

impl View for HardhatConfigBuilder {
    type V = HardhatConfigView;

    /// The configuration that `build` would hand out now.
    closed spec fn view(&self) -> HardhatConfigView {
        self.config@
    }
}

impl Default for HardhatConfigBuilder {
    /// A builder that holds the default configuration.
    fn default() -> (builder: Self)
        ensures
            builder@ == HardhatConfigView::initial(),
    {
        HardhatConfigBuilder { config: HardhatConfig::default() }
    }
}

impl HardhatConfigBuilder {
    /// A builder that holds the default configuration.
    pub fn new() -> (builder: Self)
        ensures
            builder@ == HardhatConfigView::initial(),
    {
        Self::default()
    }

    /// Puts `version` in place of the zksolc version, as it is. The settings
    /// and the solidity version stay.
    pub fn zksolc_version(&mut self, version: &str) -> (builder: &mut Self)
        ensures
            builder@ == old(self)@.with_zksolc_version(version@),
            final(self)@ == final(builder)@,
    {
        self.config.zksolc.version = version.to_string();
        self
    }

    /// Puts `version` in place of the solidity version, as it is. The zksolc
    /// section stays.
    pub fn solidity_version(&mut self, version: &str) -> (builder: &mut Self)
        ensures
            builder@ == old(self)@.with_solidity_version(version@),
            final(self)@ == final(builder)@,
    {
        self.config.solidity.version = version.to_string();
        self
    }

    /// A copy of the configuration as it stands. The builder keeps its own
    /// and can be used further.
    pub fn build(&self) -> (config: HardhatConfig)
        ensures
            config@ == self@,
    {
        self.config.clone()
    }
}

/// A version that was set is the version that is built: from the defaults,
/// setting either version to `version` gives a configuration that holds
/// exactly `version` there, whatever text it is, and the defaults elsewhere.
pub proof fn lemma_set_version_is_kept(version: Seq<char>)
    ensures
        HardhatConfigView::initial().with_zksolc_version(version).zksolc.version == version,
        HardhatConfigView::initial().with_zksolc_version(version).zksolc.settings
            == HardhatConfigView::initial().zksolc.settings,
        HardhatConfigView::initial().with_zksolc_version(version).solidity
            == HardhatConfigView::initial().solidity,
        HardhatConfigView::initial().with_solidity_version(version).solidity.version == version,
        HardhatConfigView::initial().with_solidity_version(version).zksolc
            == HardhatConfigView::initial().zksolc,
{
}

/// The last write wins: setting a version twice leaves what setting it to
/// the second value alone leaves, whatever the configuration was before.
pub proof fn lemma_last_version_wins(config: HardhatConfigView, first: Seq<char>, second: Seq<char>)
    ensures
        config.with_zksolc_version(first).with_zksolc_version(second)
            == config.with_zksolc_version(second),
        config.with_solidity_version(first).with_solidity_version(second)
            == config.with_solidity_version(second),
{
}

/// The two setters do not touch each other's field, so the order in which
/// they are called does not matter.
pub proof fn lemma_setters_commute(
    config: HardhatConfigView,
    zksolc_version: Seq<char>,
    solidity_version: Seq<char>,
)
    ensures
        config.with_zksolc_version(zksolc_version).with_solidity_version(solidity_version)
            == config.with_solidity_version(solidity_version).with_zksolc_version(zksolc_version),
{
}

/// Two configurations built from one builder with no setter called in
/// between hold the same.
pub proof fn lemma_builds_agree(
    builder: HardhatConfigBuilder,
    first: HardhatConfig,
    second: HardhatConfig,
)
    requires
        first@ == builder@,
        second@ == builder@,
    ensures
        first@ == second@,
{
}

} // verus!
