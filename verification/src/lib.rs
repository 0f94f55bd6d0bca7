//! A verified core for loading shared objects through the POSIX dynamic loader.
//!
//! The crate holds every decision of the loader's life cycle and none of its
//! native calls: which flag word an open is made with, which byte strings may
//! be handed to the loader, what a returned handle or address means, which
//! error a failed call becomes, and when a handle has to be closed. A driver
//! performs the native calls that the request values describe and hands the
//! replies back:
//!
//! 1. [`DynLib::new`] and the `load_*` methods compose the flag word.
//! 2. [`DynLib::open`] checks the path and gives an [`OpenRequest`]; the driver
//!    makes the native open and hands the handle to [`OpenRequest::complete`].
//! 3. [`DynLib::resolve`] checks a symbol name and gives a [`SymbolRequest`];
//!    the driver makes the native lookup and hands the address to
//!    [`SymbolRequest::complete`].
//! 4. Where either native call returned zero, a [`DiagnosticRequest`] asks the
//!    driver for the loader's last error and turns it into a [`LoadError`].
//! 5. [`DynLib::release`] hands out the handle to close, once.
//!
//! Everything here is proved but one function: the private wrapper of
//! `String::from_utf8` in [`text`], whose contract is taken on trust.

pub mod error;
pub mod flags;
pub mod library;
pub mod symbol;
pub mod text;

pub use error::{DiagnosticRequest, LoadError};
pub use flags::LoadOption;
pub use library::{DynLib, OpenRequest};
pub use symbol::{CallShape, Symbol, SymbolRequest};
