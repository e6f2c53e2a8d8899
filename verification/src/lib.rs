//! The rule-execution core of a linter for script programs: the diagnostic
//! context shared by all rules, the read-only control-flow query surface, the
//! contract of a built-in rule, and the host side of the plugin bridge with its
//! wire protocol.

pub mod ast;
pub mod bridge;
pub mod code_set;
pub mod context;
pub mod control_flow;
pub mod diagnostic;
pub mod error;
pub mod plugin_state;
pub mod rules;
pub mod span;
pub mod text;
pub mod wire;
