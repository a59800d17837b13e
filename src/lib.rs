//! Provisioning of the WASIX compiler toolchain: which prebuilt assets to
//! fetch and how to stage them, which stages build it from source, how the
//! toolchain manager's listing is read and how a name is (re)linked, and the
//! decision whether to reuse, download or give up.

pub mod builder;
pub mod error;
pub mod fetch;
pub mod orchestrator;
pub mod registry;
pub mod release;
pub mod target;
pub mod text;
