//! The configuration errors that stop a request before it is submitted.
use vstd::prelude::*;

verus! {

/// Why a configuration could not be turned into a backend request. Each
/// variant carries what the user needs to find the faulty entry.
#[derive(Clone, Debug, PartialEq, Eq)]
pub enum ConfigError {
    /// A symbol name of a profile matches no eligible function.
    UnresolvedSymbolName(String),
    /// An address of a profile is not an eligible function.
    UnresolvedSymbolAddress(u64),
    /// A macro group names a profile that the configuration does not declare.
    UnknownMacroProfile(String),
    /// A macro group tags an address that the analysis did not make eligible.
    UnprotectableMacroFunction(u64),
}

} // verus!
