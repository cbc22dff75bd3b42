//! The decisions of opening a shared library and resolving its symbols. The
//! loader itself is driven by the caller, which hands its outcome in.

use vstd::prelude::*;
use vstd::string::*;

use crate::error::CtypesError;
use crate::host::HostValue;

verus! {

/// What looking a symbol up found.
#[derive(PartialEq, Eq, Structural, Clone, Copy, Debug)]
pub enum SymbolLookup {
    /// The object asked is not a library handle.
    NotAHandle,
    /// The handle exports no such symbol.
    Missing,
    /// The symbol resolves to this address.
    Found(usize),
}

/// A resolved native function: its address and the argument and return
/// types the caller declared for it, which nothing here checks.
#[derive(Debug)]
pub struct SymbolWrapper {
    pub address: usize,
    pub argtypes: Option<Vec<HostValue>>,
    pub restype: Option<HostValue>,
}

/// The result of opening the library at `path`, given what the loader
/// reported: its handle, or its diagnostic, which becomes a load error that
/// names the path.
pub fn open_outcome<L>(path: &str, loaded: Result<L, String>) -> (r: Result<L, CtypesError>)
    ensures
        match loaded {
            Ok(l) => r == Ok::<L, CtypesError>(l),
            Err(d) => r matches Err(CtypesError::LoadError { path: p, diagnostic: q }) && p@
                == path@ && q == d,
        },
{
    match loaded {
        Ok(l) => Ok(l),
        Err(d) => Err(CtypesError::LoadError { path: String::from_str(path), diagnostic: d }),
    }
}

/// The result of resolving `symbol` in the library at `library`, given what
/// the lookup found: a wrapper that carries the address and the declared
/// types, or an error that tells a missing symbol from an object that is
/// not a handle.
pub fn resolve_outcome(
    lookup: SymbolLookup,
    library: &str,
    symbol: &str,
    argtypes: Option<Vec<HostValue>>,
    restype: Option<HostValue>,
) -> (r: Result<SymbolWrapper, CtypesError>)
    ensures
        match lookup {
            SymbolLookup::NotAHandle => r == Err::<SymbolWrapper, CtypesError>(
                CtypesError::InvalidHandleError,
            ),
            SymbolLookup::Missing => r matches Err(
                CtypesError::SymbolNotFoundError { symbol: s, library: l },
            ) && s@ == symbol@ && l@ == library@,
            SymbolLookup::Found(a) => r matches Ok(w) && w.address == a && w.argtypes == argtypes
                && w.restype == restype,
        },
{
    match lookup {
        SymbolLookup::NotAHandle => Err(CtypesError::InvalidHandleError),
        SymbolLookup::Missing => Err(
            CtypesError::SymbolNotFoundError {
                symbol: String::from_str(symbol),
                library: String::from_str(library),
            },
        ),
        SymbolLookup::Found(address) => Ok(SymbolWrapper { address, argtypes, restype }),
    }
}

} // verus!
