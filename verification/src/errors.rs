//! The error taxonomy of plugin loading.
//!
//! Every failure of the host layer is captured as a value of
//! [`PluginLoadError`]; none aborts the process. The underlying platform
//! report travels along as plain text.

use vstd::prelude::*;
use vstd::string::StringExecFns;
use crate::loader::SymbolKind;
use crate::loader::symbol_name;

verus! {

/// Why a plugin failed to load.
#[derive(Debug, PartialEq)]
pub enum PluginLoadError {
    /// The shared library file could not be opened: missing, unreadable, or
    /// not a library the platform accepts. Carries the platform's report.
    LibraryLoadFailed(String),
    /// A required export was absent from the library. Carries which of the
    /// four required symbols was missing and the platform's report.
    SymbolResolutionFailed(SymbolKind, String),
    /// A text-returning export produced bytes that did not decode to text.
    /// Carries the decoder's report.
    TextDecodeFailed(String),
}

impl PluginLoadError {
    /// The human-readable description of this error.
    pub open spec fn spec_message(self) -> Seq<char> {
        match self {
            PluginLoadError::LibraryLoadFailed(e) => "error occurred while loading "@ + e@,
            PluginLoadError::SymbolResolutionFailed(k, e) => "error occurred while loading a symbol: "@
                + symbol_name(k) + ": "@ + e@,
            PluginLoadError::TextDecodeFailed(e) => "error occurred while decoding plugin text: "@
                + e@,
        }
    }

    /// Renders the error as one line of text.
    pub fn message(&self) -> (r: String)
        ensures
            r@ == self.spec_message(),
    {
        match self {
            PluginLoadError::LibraryLoadFailed(e) => {
                let mut out: String = String::from_str("error occurred while loading ");
                out.append(e.as_str());
                out
            },
            PluginLoadError::SymbolResolutionFailed(k, e) => {
                let mut out: String = String::from_str("error occurred while loading a symbol: ");
                out.append(crate::loader::symbol_str(*k));
                out.append(": ");
                out.append(e.as_str());
                out
            },
            PluginLoadError::TextDecodeFailed(e) => {
                let mut out: String = String::from_str("error occurred while decoding plugin text: ");
                out.append(e.as_str());
                out
            },
        }
    }
}

} // verus!
