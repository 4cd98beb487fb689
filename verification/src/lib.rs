//! Resolution and execution of declarative credential-delegation chains.
//!
//! A chain is one base credential source (a named provider, a static key
//! pair, or a web-identity-token role) followed by zero or more
//! "assume role" hops. Building resolves the base against a registry of
//! named providers and maps each hop descriptor one to one, failing fast
//! when a named source is unknown. Execution is a strictly sequential fold:
//! every hop's call takes the previous step's credentials as its caller
//! identity. The network transport itself is supplied by the surrounding
//! application; this crate decides what to call, with which request, and
//! how each outcome advances or halts the chain.

pub mod credentials;
pub mod exec;
pub mod executor;
pub mod registry;
pub mod repr;
pub mod session;
