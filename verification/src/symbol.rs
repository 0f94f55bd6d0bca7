//! Resolving the exported symbols of an open library.

use crate::error::{DiagnosticRequest, LoadError, LoadErrorView};
use crate::library::DynLib;
use crate::text::{encode_c_string, is_c_string};
use vstd::prelude::*;

verus! {

/// The largest number of arguments that a resolved callable may take.
pub const MAX_ARITY: u8 = 8;

/// The shape that a caller declares for a symbol: how many arguments the
/// callable takes, and whether it returns a value.
///
/// The loader knows nothing of signatures. The shape is the caller's claim,
/// it is never held against the exported symbol, and calling through a shape
/// that the symbol does not have is undefined.
#[derive(Clone, Copy, Debug, PartialEq, Eq)]
pub struct CallShape {
    arity: u8,
    returns_value: bool,
}

impl CallShape {
    #[verifier::type_invariant]
    spec fn well_formed(self) -> bool {
        self.arity <= MAX_ARITY
    }

    /// The number of arguments.
    pub closed spec fn spec_arity(&self) -> u8 {
        self.arity
    }

    /// True for a callable that returns a value, false for one that returns
    /// nothing.
    pub closed spec fn spec_returns_value(&self) -> bool {
        self.returns_value
    }

    /// The shape of a callable with `arity` arguments, if that is no more
    /// than [`MAX_ARITY`].
    pub fn new(arity: u8, returns_value: bool) -> (shape: Option<CallShape>)
        ensures
            shape is Some <==> arity <= MAX_ARITY,
            shape matches Some(s) ==> s.spec_arity() == arity && s.spec_returns_value()
                == returns_value,
    {
        if arity <= MAX_ARITY {
            Some(CallShape { arity, returns_value })
        } else {
            None
        }
    }

    /// The number of arguments, at most [`MAX_ARITY`].
    #[verifier::when_used_as_spec(spec_arity)]
    pub fn arity(&self) -> (arity: u8)
        ensures
            arity == self.spec_arity(),
            arity <= MAX_ARITY,
    {
        proof {
            use_type_invariant(self);
        }
        self.arity
    }

    /// Says whether the callable returns a value.
    #[verifier::when_used_as_spec(spec_returns_value)]
    pub fn returns_value(&self) -> (returns_value: bool)
        ensures
            returns_value == self.spec_returns_value(),
    {
        self.returns_value
    }
}

/// The native symbol lookup that a driver has to perform: the handle of the
/// open library and the symbol's name as a native string.
#[derive(Debug)]
pub struct SymbolRequest {
    handle: u64,
    name: Vec<u8>,
    shape: CallShape,
}

/// The address of an exported symbol, with the shape that the caller declared
/// for it. The address is never zero.
#[derive(Clone, Copy, Debug, PartialEq, Eq)]
pub struct Symbol {
    address: u64,
    shape: CallShape,
}

impl Symbol {
    #[verifier::type_invariant]
    spec fn well_formed(self) -> bool {
        self.address != 0
    }

    /// The address of the symbol.
    pub closed spec fn spec_address(&self) -> u64 {
        self.address
    }

    /// The shape declared for the symbol.
    pub closed spec fn spec_shape(&self) -> CallShape {
        self.shape
    }

    /// The address to reinterpret as a callable of the declared shape. It is
    /// not zero.
    #[verifier::when_used_as_spec(spec_address)]
    pub fn address(&self) -> (address: u64)
        ensures
            address == self.spec_address(),
            address != 0,
    {
        proof {
            use_type_invariant(self);
        }
        self.address
    }

    /// The shape declared for the symbol.
    #[verifier::when_used_as_spec(spec_shape)]
    pub fn shape(&self) -> (shape: CallShape)
        ensures
            shape == self.spec_shape(),
    {
        self.shape
    }
}

impl SymbolRequest {
    #[verifier::type_invariant]
    spec fn well_formed(self) -> bool {
        &&& self.handle != 0
        &&& is_c_string(self.name@)
    }

    /// The handle of the library to search.
    pub closed spec fn spec_handle(&self) -> u64 {
        self.handle
    }

    /// The name to look up, as a native string.
    pub closed spec fn spec_name(&self) -> Seq<u8> {
        self.name@
    }

    /// The shape declared for the symbol.
    pub closed spec fn spec_shape(&self) -> CallShape {
        self.shape
    }

    /// The handle to hand to the native lookup. It is not zero.
    #[verifier::when_used_as_spec(spec_handle)]
    pub fn handle(&self) -> (handle: u64)
        ensures
            handle == self.spec_handle(),
            handle != 0,
    {
        proof {
            use_type_invariant(self);
        }
        self.handle
    }

    /// The name to hand to the native lookup. It is a native string.
    pub fn name(&self) -> (name: &Vec<u8>)
        ensures
            name@ == self.spec_name(),
            is_c_string(name@),
    {
        proof {
            use_type_invariant(self);
        }
        &self.name
    }

    /// The shape declared for the symbol.
    #[verifier::when_used_as_spec(spec_shape)]
    pub fn shape(&self) -> (shape: CallShape)
        ensures
            shape == self.spec_shape(),
    {
        self.shape
    }

    /// Takes the address that the native lookup returned. An address other
    /// than zero gives the symbol, under the declared shape and unexamined;
    /// zero says that the lookup failed, and asks for the loader's
    /// description of the failure.
    pub fn complete(self, address: u64) -> (outcome: Result<Symbol, DiagnosticRequest>)
        ensures
            outcome is Ok <==> address != 0,
            outcome matches Ok(symbol) ==> symbol.spec_address() == address && symbol.spec_shape()
                == self.spec_shape(),
    {
        if address == 0 {
            Err(DiagnosticRequest::new())
        } else {
            Ok(Symbol { address, shape: self.shape })
        }
    }
}

impl DynLib {
    /// Starts the resolution of the exported symbol `name` in this open
    /// library, to be used under `shape`. A name with a zero byte in it is
    /// refused, and no request for a native call is made; any other name gives
    /// the request for the native lookup.
    pub fn resolve(&self, name: Vec<u8>, shape: CallShape) -> (request: Result<
        SymbolRequest,
        LoadError,
    >)
        requires
            self.spec_is_open(),
        ensures
            request is Err <==> name@.contains(0u8),
            request matches Err(error) ==> error@ == LoadErrorView::InvalidInput,
            request matches Ok(lookup) ==> lookup.spec_name() == name@.push(0u8) && is_c_string(
                lookup.spec_name(),
            ) && lookup.spec_handle() == self.spec_handle() && lookup.spec_shape() == shape,
    {
        let handle = self.handle();
        match encode_c_string(name) {
            Some(encoded) => Ok(SymbolRequest { handle, name: encoded, shape }),
            None => Err(LoadError::InvalidInput),
        }
    }
}

} // verus!
