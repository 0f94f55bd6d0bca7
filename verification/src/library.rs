//! The library handle: its flag word, how it is opened and how it is released.

use crate::error::{DiagnosticRequest, LoadError, LoadErrorView};
use crate::flags::{enable, only_option_bits, LoadOption, ALL_OPTIONS, LOCAL};
use crate::flags::{lemma_enable_keeps_option_bits, lemma_option_bits_bounded};
use crate::text::{encode_c_string, is_c_string};
use vstd::prelude::*;

verus! {

/// A dynamic library: the flag word it is, or will be, opened with, and the
/// native handle once it is open. A handle of zero says that it is not open.
#[derive(Debug)]
pub struct DynLib {
    load_flags: u64,
    handle: u64,
}

/// The native open that a driver has to perform: the path as a native string
/// and the flag word.
#[derive(Debug)]
pub struct OpenRequest {
    flags: u64,
    path: Vec<u8>,
}

impl OpenRequest {
    #[verifier::type_invariant]
    spec fn well_formed(self) -> bool {
        &&& only_option_bits(self.flags)
        &&& is_c_string(self.path@)
    }

    /// The flag word of the open.
    pub closed spec fn spec_flags(&self) -> u64 {
        self.flags
    }

    /// The path of the open, as a native string.
    pub closed spec fn spec_path(&self) -> Seq<u8> {
        self.path@
    }

    /// The flag word to hand to the native open. It holds option bits only,
    /// and so fits the loader's signed 32-bit flag argument.
    #[verifier::when_used_as_spec(spec_flags)]
    pub fn flags(&self) -> (flags: u64)
        ensures
            flags == self.spec_flags(),
            only_option_bits(flags),
            flags <= ALL_OPTIONS,
    {
        proof {
            use_type_invariant(self);
            lemma_option_bits_bounded(self.flags);
        }
        self.flags
    }

    /// The path to hand to the native open. It is a native string.
    pub fn path(&self) -> (path: &Vec<u8>)
        ensures
            path@ == self.spec_path(),
            is_c_string(path@),
    {
        proof {
            use_type_invariant(self);
        }
        &self.path
    }

    /// Takes the handle that the native open returned. A handle other than
    /// zero gives the open library; zero says that the open failed, and asks
    /// for the loader's description of the failure.
    pub fn complete(self, handle: u64) -> (outcome: Result<DynLib, DiagnosticRequest>)
        ensures
            outcome is Ok <==> handle != 0,
            outcome matches Ok(lib) ==> lib.spec_handle() == handle && lib.spec_flags()
                == self.spec_flags(),
    {
        proof {
            use_type_invariant(&self);
        }
        if handle == 0 {
            Err(DiagnosticRequest::new())
        } else {
            Ok(DynLib { load_flags: self.flags, handle })
        }
    }
}

impl DynLib {
    #[verifier::type_invariant]
    spec fn well_formed(self) -> bool {
        only_option_bits(self.load_flags)
    }

    /// The flag word.
    pub closed spec fn spec_flags(&self) -> u64 {
        self.load_flags
    }

    /// The native handle, zero while the library is not open.
    pub closed spec fn spec_handle(&self) -> u64 {
        self.handle
    }

    /// True when the library holds a native handle.
    pub open spec fn spec_is_open(&self) -> bool {
        self.spec_handle() != 0
    }

    /// The library after a release: the same flag word, no handle.
    pub closed spec fn released(self) -> DynLib {
        DynLib { load_flags: self.load_flags, handle: 0 }
    }

    /// The handle that a release hands to the native close: the library's
    /// own while it is open, none otherwise.
    pub open spec fn close_request(&self) -> Option<u64> {
        if self.spec_is_open() {
            Some(self.spec_handle())
        } else {
            None
        }
    }

    /// A release leaves the flag word alone and the library not open, so a
    /// release that follows another asks for no native close and changes
    /// nothing: over any run of releases the handle is closed at most once.
    pub proof fn lemma_release_closes_at_most_once(self)
        ensures
            self.released().spec_flags() == self.spec_flags(),
            !self.released().spec_is_open(),
            self.released().close_request() is None,
            self.released().released() == self.released(),
    {
    }

    /// A library that is not open, with no option switched on.
    pub fn new() -> (lib: DynLib)
        ensures
            lib.spec_flags() == 0,
            !lib.spec_is_open(),
    {
        assert(0u64 & !ALL_OPTIONS == 0) by (bit_vector);
        DynLib { load_flags: 0u64, handle: 0u64 }
    }

    /// The flag word as it stands. It holds option bits only.
    #[verifier::when_used_as_spec(spec_flags)]
    pub fn flags(&self) -> (flags: u64)
        ensures
            flags == self.spec_flags(),
            only_option_bits(flags),
            flags <= ALL_OPTIONS,
    {
        proof {
            use_type_invariant(self);
            lemma_option_bits_bounded(self.load_flags);
        }
        self.load_flags
    }

    /// The native handle, zero while the library is not open.
    #[verifier::when_used_as_spec(spec_handle)]
    pub fn handle(&self) -> (handle: u64)
        ensures
            handle == self.spec_handle(),
    {
        self.handle
    }

    /// Says whether the library holds a native handle.
    #[verifier::when_used_as_spec(spec_is_open)]
    pub fn is_open(&self) -> (open: bool)
        ensures
            open == self.spec_is_open(),
    {
        self.handle != 0
    }

    /// Switches `option` on in the flag word. The handle is not touched.
    pub fn enable(self, option: LoadOption) -> (lib: DynLib)
        ensures
            lib.spec_flags() == enable(self.spec_flags(), option),
            lib.spec_handle() == self.spec_handle(),
    {
        proof {
            use_type_invariant(&self);
            lemma_enable_keeps_option_bits(self.load_flags, option);
        }
        DynLib { load_flags: self.load_flags | option.mask(), handle: self.handle }
    }

    /// Switches on lazy binding: a function symbol is bound when it is first
    /// called. References to variables are bound at open time all the same.
    pub fn load_lazy(self) -> (lib: DynLib)
        ensures
            lib.spec_flags() == enable(self.spec_flags(), LoadOption::Lazy),
            lib.spec_handle() == self.spec_handle(),
    {
        self.enable(LoadOption::Lazy)
    }

    /// Switches on immediate binding: every undefined symbol is bound before
    /// the open returns, and the open fails if one cannot be.
    pub fn load_now(self) -> (lib: DynLib)
        ensures
            lib.spec_flags() == enable(self.spec_flags(), LoadOption::Now),
            lib.spec_handle() == self.spec_handle(),
    {
        self.enable(LoadOption::Now)
    }

    /// Offers the symbols of this object to the objects that are opened
    /// after it.
    pub fn load_global(self) -> (lib: DynLib)
        ensures
            lib.spec_flags() == enable(self.spec_flags(), LoadOption::Global),
            lib.spec_handle() == self.spec_handle(),
    {
        self.enable(LoadOption::Global)
    }

    /// Asks for local binding, which is what the loader does unless the
    /// global option is on. The option has no bit: the flag word stays as it
    /// is, and a global option that is already on stays on.
    pub fn load_local(self) -> (lib: DynLib)
        ensures
            lib.spec_flags() == enable(self.spec_flags(), LoadOption::Local),
            lib.spec_flags() == self.spec_flags(),
            lib.spec_handle() == self.spec_handle(),
    {
        proof {
            let flags = self.load_flags;
            assert(flags | LOCAL == flags) by (bit_vector);
        }
        self.enable(LoadOption::Local)
    }

    /// Keeps the object mapped when its handle is closed, so that its static
    /// state survives a later open.
    pub fn load_nodelete(self) -> (lib: DynLib)
        ensures
            lib.spec_flags() == enable(self.spec_flags(), LoadOption::NoDelete),
            lib.spec_handle() == self.spec_handle(),
    {
        self.enable(LoadOption::NoDelete)
    }

    /// Asks the loader not to load the object, only to find it if it is
    /// resident already. Together with the global option this widens the
    /// visibility of a resident object.
    pub fn load_noload(self) -> (lib: DynLib)
        ensures
            lib.spec_flags() == enable(self.spec_flags(), LoadOption::NoLoad),
            lib.spec_handle() == self.spec_handle(),
    {
        self.enable(LoadOption::NoLoad)
    }

    /// Puts the object's own symbols before the global ones when its
    /// references are bound.
    pub fn load_deepbind(self) -> (lib: DynLib)
        ensures
            lib.spec_flags() == enable(self.spec_flags(), LoadOption::DeepBind),
            lib.spec_handle() == self.spec_handle(),
    {
        self.enable(LoadOption::DeepBind)
    }

    /// Gives up the native handle. Where the library is open, the handle
    /// comes back for the driver to hand to the native close, whose own result
    /// is of no account; where it is not, nothing is to be done.
    pub fn release(&mut self) -> (to_close: Option<u64>)
        ensures
            to_close == old(self).close_request(),
            *final(self) == old(self).released(),
            final(self).spec_flags() == old(self).spec_flags(),
            !final(self).spec_is_open(),
    {
        proof {
            use_type_invariant(&*self);
        }
        let handle = self.handle;
        self.handle = 0;
        if handle != 0 {
            Some(handle)
        } else {
            None
        }
    }

    /// Starts an open of the object at `path` under the flag word of `self`.
    /// A path with a zero byte in it is refused, and no request for a native
    /// call is made; any other path gives the request for the native open.
    ///
    /// The open takes the flag word only. A library that is open already
    /// should be released first: its handle is not carried over and nothing
    /// here closes it.
    pub fn open(self, path: Vec<u8>) -> (request: Result<OpenRequest, LoadError>)
        ensures
            request is Err <==> path@.contains(0u8),
            request matches Err(error) ==> error@ == LoadErrorView::InvalidInput,
            request matches Ok(open) ==> open.spec_path() == path@.push(0u8) && is_c_string(
                open.spec_path(),
            ) && open.spec_flags() == self.spec_flags(),
    {
        proof {
            use_type_invariant(&self);
        }
        match encode_c_string(path) {
            Some(encoded) => Ok(OpenRequest { flags: self.load_flags, path: encoded }),
            None => Err(LoadError::InvalidInput),
        }
    }
}

} // verus!
