//! Decisions of an SSH proxy that guards git access for sandboxed clients.

pub mod addr;
pub mod auth;
pub mod channels;
pub mod exec;
pub mod key;
pub mod prompt;
pub mod proxy;
pub mod relay;
pub mod rules;
pub mod session;
pub mod table;
pub mod text;
