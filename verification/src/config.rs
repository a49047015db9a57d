//! The part of the configuration that the server decides by.
use vstd::prelude::*;

verus! {

/// What is shown in place of the warnings and errors of the compiler, for debugging.
#[derive(Clone, Copy, Debug, PartialEq, Eq, Structural)]
pub enum Warnings {
    /// The warnings and errors of the compiler.
    Default,
    /// The parsed tokens.
    Parsed,
    /// The typed tokens.
    Typed,
}

#[derive(Clone, Copy, Debug, PartialEq, Eq, Structural)]
pub struct DebugConfig {
    pub show_collected_tokens_as_warnings: Warnings,
}

#[derive(Clone, Copy, Debug, PartialEq, Eq, Structural)]
pub struct DiagnosticConfig {
    pub show_warnings: bool,
    pub show_errors: bool,
}

#[derive(Clone, Copy, Debug, PartialEq, Eq, Structural)]
pub struct Config {
    pub debug: DebugConfig,
    pub diagnostic: DiagnosticConfig,
}

/// When a compilation collects garbage first.
#[derive(Clone, Copy, Debug, PartialEq, Eq, Structural)]
pub struct GarbageCollectionConfig {
    /// Whether garbage is collected at all.
    pub gc_enabled: bool,
    /// Garbage is collected at the versions of a document that this number divides.
    pub gc_frequency: i32,
}

} // verus!
