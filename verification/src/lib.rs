//! Arcadia: the staff tooling of Infinity Bot List — the review bot's
//! commands, the RPC methods behind staff actions and the staff panel — as a
//! verified library of the decisions they take.
pub mod text;
pub mod perms;
pub mod parse;
pub mod target_types;
pub mod rpc;
pub mod ids;
pub mod config;
pub mod rpc_handle;
pub mod rpc_methods;
pub mod panel;
pub mod staff;
pub mod session;
pub mod sessions;
pub mod partners;
pub mod shop;
pub mod onboarding;
pub mod managers;
pub mod bot_actions;
pub mod rpc_menu;
pub mod explain;
pub mod panel_types;
pub mod rpc_server;
pub mod bot_commands;
pub mod reports;
