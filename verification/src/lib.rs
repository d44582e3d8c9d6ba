//! An in-memory model of a Hardhat configuration for zkSync projects, a
//! builder that overrides its compiler versions, and the renderer that turns
//! the model into the text of `hardhat.config.ts`.
//!
//! Every function of the library carries a contract over the model's view
//! (`HardhatConfigView`) and over the spec functions of `render` and
//! `escape`, and is proved to meet it. What is taken on trust from
//! `serde_json` stands in `settings`; `escape` holds the contract of
//! `String::push`, the one function of std that is used on trust.

pub mod builder;
pub mod escape;
pub mod model;
pub mod render;
pub mod settings;

pub use builder::HardhatConfigBuilder;
pub use escape::escape_version;
pub use model::{
    HardhatConfig, SolidityConfig, ZksolcConfig, DEFAULT_SOLIDITY_VERSION, DEFAULT_ZKSOLC_VERSION,
};
pub use render::{render_config, version_closes_literal, RenderError};
