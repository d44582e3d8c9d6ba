//! The text of `hardhat.config.ts`: the fixed pieces of the template, the
//! spec functions that say what a rendered configuration is, and the
//! functions that write it.
//!
//! A version never reaches the template as it is: both renderers write it
//! escaped, and the checked one refuses a version that holds a double quote
//! rather than escape it.

use crate::escape::{
    escape_version, escaped, is_plain, is_special, lemma_escaped_of_plain,
    lemma_escaped_stays_in_literal, stays_in_literal,
};
use crate::model::{HardhatConfig, HardhatConfigView};
use crate::settings::settings_to_json;
use vstd::prelude::*;

verus! {

/// The head of every rendered file: the imports and the two network presets.
pub const NETWORK_PRESETS: &'static str = r#"
import { HardhatUserConfig } from "hardhat/config";

import "@matterlabs/hardhat-zksync-solc";
import "@matterlabs/hardhat-zksync-verify";

export const zkSyncTestnet = process.env.NODE_ENV == "test"
? {
    url: "http://127.0.0.1:8011",
    ethNetwork: "http://127.0.0.1:8045",
    zksync: true,
  }
: {
    url: "https://sepolia.era.zksync.dev",
    ethNetwork: "sepolia",
    zksync: true,
    verifyURL: "https://explorer.sepolia.era.zksync.dev/contract_verification"
  };

export const zkSyncMainnet = {
    url: "https://mainnet.era.zksync.io",
    ethNetwork: "mainnet",
    zksync: true,
    verifyURL: "https://zksync2-mainnet-explorer.zksync.io/contract_verification"
  };
"#;

/// From the end of the presets up to the quote that opens the zksolc version.
pub const BEFORE_ZKSOLC_VERSION: &'static str = r#"
const config: HardhatUserConfig = {
  zksolc: {
    version: ""#;

/// From the quote that closes the zksolc version up to the settings.
pub const BEFORE_SETTINGS: &'static str = r#"",
    settings: "#;

/// From the end of the settings up to the quote that opens the solidity
/// version.
pub const BEFORE_SOLIDITY_VERSION: &'static str = r#",
  },
  defaultNetwork: "zkSyncTestnet",
  networks: {
    hardhat: {
      zksync: false,
    },
    zkSyncTestnet,
    zkSyncMainnet,
  },
  solidity: {
    version: ""#;

/// From the quote that closes the solidity version to the end of the file.
pub const AFTER_SOLIDITY_VERSION: &'static str = r#"",
  },
};

export default config;
"#;

/// The settings as `to_string_config` writes them, whatever the model holds.
pub const EMPTY_SETTINGS: &'static str = "{}";

/// Why a configuration was not rendered.
#[derive(Debug, Clone, Copy, PartialEq, Eq, Structural)]
pub enum RenderError {
    /// A version holds a double quote, which would close the string literal
    /// that the template puts round it.
    MalformedVersionString,
    /// The settings have no JSON text.
    UnserializableSettings,
}

/// The template round three texts: what stands between the quotes of the
/// zksolc version, what stands for the settings, and what stands between the
/// quotes of the solidity version.
pub open spec fn config_text(
    zksolc_version: Seq<char>,
    settings: Seq<char>,
    solidity_version: Seq<char>,
) -> Seq<char> {
    NETWORK_PRESETS@ + BEFORE_ZKSOLC_VERSION@ + zksolc_version + BEFORE_SETTINGS@ + settings
        + BEFORE_SOLIDITY_VERSION@ + solidity_version + AFTER_SOLIDITY_VERSION@
}

/// Whether a version, written as it is, would close the string literal
/// round it: whether it holds a double quote.
pub open spec fn closes_literal(version: Seq<char>) -> bool {
    version.contains('"')
}

/// What the checked rendering gives: no text at all where a version holds
/// a double quote or the settings have no JSON text, a malformed version
/// being reported first; else the template round the escaped versions and
/// the JSON text of the settings.
pub open spec fn checked_config_text(
    zksolc_version: Seq<char>,
    settings: Option<Seq<char>>,
    solidity_version: Seq<char>,
) -> Result<Seq<char>, RenderError> {
    if closes_literal(zksolc_version) || closes_literal(solidity_version) {
        Err(RenderError::MalformedVersionString)
    } else {
        match settings {
            Some(json) => Ok(
                config_text(escaped(zksolc_version), json, escaped(solidity_version)),
            ),
            None => Err(RenderError::UnserializableSettings),
        }
    }
}

impl HardhatConfigView {
    /// The file that `to_string_config` writes for this configuration: the
    /// template round the escaped versions and the empty settings object.
    pub open spec fn text(self) -> Seq<char> {
        config_text(escaped(self.zksolc.version), EMPTY_SETTINGS@, escaped(self.solidity.version))
    }

    /// The file that `try_to_string_config` writes for this configuration,
    /// or the reason why it writes none.
    pub open spec fn checked_text(self) -> Result<Seq<char>, RenderError> {
        checked_config_text(self.zksolc.version, self.zksolc.settings, self.solidity.version)
    }
}

/// Writes the template round the two versions, each escaped here and
/// nowhere else, and the text of the settings.
fn fill_template(zksolc_version: &str, settings: &str, solidity_version: &str) -> (text: String)
    ensures
        text@ == config_text(escaped(zksolc_version@), settings@, escaped(solidity_version@)),
{
    let zksolc_literal = escape_version(zksolc_version);
    let solidity_literal = escape_version(solidity_version);
    let mut text = String::from_str(NETWORK_PRESETS);
    text.append(BEFORE_ZKSOLC_VERSION);
    text.append(zksolc_literal.as_str());
    text.append(BEFORE_SETTINGS);
    text.append(settings);
    text.append(BEFORE_SOLIDITY_VERSION);
    text.append(solidity_literal.as_str());
    text.append(AFTER_SOLIDITY_VERSION);
    text
}

/// Tells whether a version holds a double quote.
pub fn version_closes_literal(version: &str) -> (found: bool)
    ensures
        found == closes_literal(version@),
{
    let mut found = false;
    for c in chars: version.chars()
        invariant
            chars.seq() == version@,
            found <==> exists|i: int| 0 <= i < chars.index() && version@[i] == '"',
    {
        if c == '"' {
            found = true;
        }
    }
    found
}

/// What a rendering came to, with the text by its view.
pub open spec fn outcome(rendered: Result<String, RenderError>) -> Result<Seq<char>, RenderError> {
    match rendered {
        Ok(text) => Ok(text@),
        Err(error) => Err(error),
    }
}

/// The JSON text of the settings, where there is one, by its view.
pub open spec fn json_view(settings: Option<&str>) -> Option<Seq<char>> {
    match settings {
        Some(json) => Some(json@),
        None => None,
    }
}

/// Renders a configuration from its two versions and the JSON text of its
/// settings, `None` standing for settings that have no such text.
///
/// Nothing is rendered where a version holds a double quote
/// (`MalformedVersionString`), nor, with both versions in order, where the
/// settings have no text (`UnserializableSettings`). What is rendered holds
/// the versions escaped and the settings as they were given.
pub fn render_config(zksolc_version: &str, settings: Option<&str>, solidity_version: &str) -> (rendered:
    Result<String, RenderError>)
    ensures
        outcome(rendered) == checked_config_text(
            zksolc_version@,
            json_view(settings),
            solidity_version@,
        ),
{
    if version_closes_literal(zksolc_version) || version_closes_literal(solidity_version) {
        return Err(RenderError::MalformedVersionString);
    }
    match settings {
        Some(json) => Ok(fill_template(zksolc_version, json, solidity_version)),
        None => Err(RenderError::UnserializableSettings),
    }
}

impl HardhatConfig {
    /// Renders the configuration as the text of `hardhat.config.ts`.
    ///
    /// The two versions are put between their quotes escaped, so that the
    /// literals hold whatever text the versions are, and the settings are
    /// written as the empty object whatever the model holds.
    pub fn to_string_config(&self) -> (text: String)
        ensures
            text@ == self@.text(),
    {
        fill_template(self.zksolc.version.as_str(), EMPTY_SETTINGS, self.solidity.version.as_str())
    }

    /// Renders the configuration with its settings. A version that holds a
    /// double quote is refused rather than escaped
    /// (`MalformedVersionString`), and so are, with both versions in order,
    /// settings that `serde_json` cannot write (`UnserializableSettings`).
    pub fn try_to_string_config(&self) -> (rendered: Result<String, RenderError>)
        ensures
            outcome(rendered) == self@.checked_text(),
    {
        match settings_to_json(&self.zksolc.settings) {
            Ok(json) => render_config(
                self.zksolc.version.as_str(),
                Some(json.as_str()),
                self.solidity.version.as_str(),
            ),
            Err(_) => render_config(
                self.zksolc.version.as_str(),
                None,
                self.solidity.version.as_str(),
            ),
        }
    }
}

/// Rendering is a function of what the configuration holds: two
/// configurations with the same view render to the same text, and are
/// refused or not alike. The text that `to_string_config` writes depends on
/// the two versions alone.
pub proof fn lemma_rendering_is_deterministic(first: HardhatConfig, second: HardhatConfig)
    ensures
        first@ == second@ ==> first@.text() == second@.text(),
        first@ == second@ ==> first@.checked_text() == second@.checked_text(),
        first@.zksolc.version == second@.zksolc.version && first@.solidity.version
            == second@.solidity.version ==> first@.text() == second@.text(),
{
}

/// Where the settings are the empty object and no version holds a double
/// quote, the checked rendering gives the very text of `to_string_config`.
pub proof fn lemma_checked_text_of_empty_settings(config: HardhatConfigView)
    requires
        config.zksolc.settings == Some(EMPTY_SETTINGS@),
        !closes_literal(config.zksolc.version),
        !closes_literal(config.solidity.version),
    ensures
        config.checked_text() == Ok::<Seq<char>, RenderError>(config.text()),
{
}

/// The checked rendering gives a text exactly where no version holds a
/// double quote and the settings have a JSON text; no text it gives holds
/// less than the whole template.
pub proof fn lemma_checked_text_is_whole_or_none(config: HardhatConfigView)
    ensures
        config.checked_text() is Ok <==> !closes_literal(config.zksolc.version) && !closes_literal(
            config.solidity.version,
        ) && config.zksolc.settings is Some,
        config.checked_text() is Ok ==> config.checked_text()->Ok_0 == config_text(
            escaped(config.zksolc.version),
            config.zksolc.settings->Some_0,
            escaped(config.solidity.version),
        ),
{
}

/// Versions without a double quote and without a backslash stand in the
/// rendered text exactly as they are: the text is the template round them.
pub proof fn lemma_text_of_plain_versions(config: HardhatConfigView)
    requires
        is_plain(config.zksolc.version),
        is_plain(config.solidity.version),
    ensures
        config.text() == config_text(
            config.zksolc.version,
            EMPTY_SETTINGS@,
            config.solidity.version,
        ),
        config.zksolc.settings is Some ==> config.checked_text() == Ok::<Seq<char>, RenderError>(
            config_text(
                config.zksolc.version,
                config.zksolc.settings->Some_0,
                config.solidity.version,
            ),
        ),
{
    lemma_escaped_of_plain(config.zksolc.version);
    lemma_escaped_of_plain(config.solidity.version);
    assert(!closes_literal(config.zksolc.version)) by {
        if closes_literal(config.zksolc.version) {
            let i = choose|i: int|
                0 <= i < config.zksolc.version.len() && config.zksolc.version[i] == '"';
            assert(is_special(config.zksolc.version[i]));
        }
    }
    assert(!closes_literal(config.solidity.version)) by {
        if closes_literal(config.solidity.version) {
            let i = choose|i: int|
                0 <= i < config.solidity.version.len() && config.solidity.version[i] == '"';
            assert(is_special(config.solidity.version[i]));
        }
    }
}

/// No version can leave its string literal: whatever the two versions hold,
/// what `to_string_config` writes between the quotes of each is a text that
/// neither closes the literal nor leaves it open, and the same holds of
/// every text that the checked rendering gives.
pub proof fn lemma_versions_stay_in_their_literals(config: HardhatConfigView)
    ensures
        ({
            let text = config.text();
            let zksolc_literal = escaped(config.zksolc.version);
            let solidity_literal = escaped(config.solidity.version);
            let zksolc_from: int = zksolc_version_at() as int;
            let solidity_from: int = solidity_version_at(zksolc_literal, EMPTY_SETTINGS@) as int;
            &&& stays_in_literal(zksolc_literal)
            &&& stays_in_literal(solidity_literal)
            &&& text.subrange(zksolc_from, zksolc_from + zksolc_literal.len()) == zksolc_literal
            &&& text.subrange(solidity_from, solidity_from + solidity_literal.len())
                == solidity_literal
        }),
        config.checked_text() is Ok ==> ({
            let text = config.checked_text()->Ok_0;
            let settings = config.zksolc.settings->Some_0;
            let zksolc_literal = escaped(config.zksolc.version);
            let solidity_literal = escaped(config.solidity.version);
            let zksolc_from: int = zksolc_version_at() as int;
            let solidity_from: int = solidity_version_at(zksolc_literal, settings) as int;
            &&& text.subrange(zksolc_from, zksolc_from + zksolc_literal.len()) == zksolc_literal
            &&& text.subrange(solidity_from, solidity_from + solidity_literal.len())
                == solidity_literal
        }),
{
    lemma_escaped_stays_in_literal(config.zksolc.version);
    lemma_escaped_stays_in_literal(config.solidity.version);
    lemma_text_layout(
        escaped(config.zksolc.version),
        EMPTY_SETTINGS@,
        escaped(config.solidity.version),
    );
    if config.checked_text() is Ok {
        lemma_text_layout(
            escaped(config.zksolc.version),
            config.zksolc.settings->Some_0,
            escaped(config.solidity.version),
        );
    }
}

/// Where the zksolc version starts in every rendered text.
pub open spec fn zksolc_version_at() -> nat {
    NETWORK_PRESETS@.len() + BEFORE_ZKSOLC_VERSION@.len()
}

/// Where the settings start in a text whose zksolc literal holds this.
pub open spec fn settings_at(zksolc_version: Seq<char>) -> nat {
    zksolc_version_at() + zksolc_version.len() + BEFORE_SETTINGS@.len()
}

/// Where the solidity version starts in a text whose zksolc literal holds
/// this and whose settings are these.
pub open spec fn solidity_version_at(zksolc_version: Seq<char>, settings: Seq<char>) -> nat {
    settings_at(zksolc_version) + settings.len() + BEFORE_SOLIDITY_VERSION@.len()
}

/// The template round three texts is the fixed pieces and the three texts,
/// each unchanged at its place: it begins with the network presets, holds
/// the first text, the settings and the last text between the fixed pieces,
/// ends with the fixed closing lines, and holds nothing else.
pub proof fn lemma_text_layout(
    zksolc_version: Seq<char>,
    settings: Seq<char>,
    solidity_version: Seq<char>,
)
    ensures
        ({
            let text = config_text(zksolc_version, settings, solidity_version);
            let zksolc_from: int = zksolc_version_at() as int;
            let settings_from: int = settings_at(zksolc_version) as int;
            let solidity_from: int = solidity_version_at(zksolc_version, settings) as int;
            let solidity_to: int = solidity_from + solidity_version.len();
            &&& text.len() == solidity_to + AFTER_SOLIDITY_VERSION@.len()
            &&& text.subrange(0, NETWORK_PRESETS@.len() as int) == NETWORK_PRESETS@
            &&& text.subrange(NETWORK_PRESETS@.len() as int, zksolc_from)
                == BEFORE_ZKSOLC_VERSION@
            &&& text.subrange(zksolc_from, zksolc_from + zksolc_version.len()) == zksolc_version
            &&& text.subrange(zksolc_from + zksolc_version.len(), settings_from)
                == BEFORE_SETTINGS@
            &&& text.subrange(settings_from, settings_from + settings.len()) == settings
            &&& text.subrange(settings_from + settings.len(), solidity_from)
                == BEFORE_SOLIDITY_VERSION@
            &&& text.subrange(solidity_from, solidity_to) == solidity_version
            &&& text.subrange(solidity_to, text.len() as int) == AFTER_SOLIDITY_VERSION@
        }),
{
    let text = config_text(zksolc_version, settings, solidity_version);
    let zksolc_from: int = zksolc_version_at() as int;
    let settings_from: int = settings_at(zksolc_version) as int;
    let solidity_from: int = solidity_version_at(zksolc_version, settings) as int;
    let solidity_to: int = solidity_from + solidity_version.len();
    assert(text.subrange(0, NETWORK_PRESETS@.len() as int) =~= NETWORK_PRESETS@);
    assert(text.subrange(NETWORK_PRESETS@.len() as int, zksolc_from) =~= BEFORE_ZKSOLC_VERSION@);
    assert(text.subrange(zksolc_from, zksolc_from + zksolc_version.len()) =~= zksolc_version);
    assert(text.subrange(zksolc_from + zksolc_version.len(), settings_from) =~= BEFORE_SETTINGS@);
    assert(text.subrange(settings_from, settings_from + settings.len()) =~= settings);
    assert(text.subrange(settings_from + settings.len(), solidity_from)
        =~= BEFORE_SOLIDITY_VERSION@);
    assert(text.subrange(solidity_from, solidity_to) =~= solidity_version);
    assert(text.subrange(solidity_to, text.len() as int) =~= AFTER_SOLIDITY_VERSION@);
}

} // verus!
