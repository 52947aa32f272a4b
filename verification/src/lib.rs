//! Declarative firewall rules and the engine that applies them through an
//! external packet-filter control tool.

pub mod command_util;
pub mod executor;
pub mod iptables;
pub mod shell_quote;
pub mod string_enum;
pub mod text;
