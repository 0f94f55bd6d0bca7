//! The loader's behaviour options and the arithmetic of their flag bits.

use vstd::prelude::*;

verus! {

/// Bit of [`LoadOption::Lazy`].
pub const LAZY: u64 = 1;

/// Bit of [`LoadOption::Now`].
pub const NOW: u64 = 2;

/// Bit of [`LoadOption::Global`].
pub const GLOBAL: u64 = 256;

/// Bit of [`LoadOption::Local`]: none, local binding is what the loader does
/// when the global bit is absent.
pub const LOCAL: u64 = 0;

/// Bit of [`LoadOption::NoDelete`].
pub const NODELETE: u64 = 4096;

/// Bit of [`LoadOption::NoLoad`].
pub const NOLOAD: u64 = 4;

/// Bit of [`LoadOption::DeepBind`].
pub const DEEPBIND: u64 = 8;

/// Every bit that some option sets.
pub const ALL_OPTIONS: u64 = 4367;

/// A named behaviour of the loader at open time.
#[derive(Clone, Copy, PartialEq, Eq, Debug)]
pub enum LoadOption {
    /// Bind function symbols when they are first called.
    Lazy,
    /// Bind every undefined symbol before the open returns.
    Now,
    /// Offer this object's symbols to objects opened later.
    Global,
    /// Keep this object's symbols to itself.
    Local,
    /// Keep the object mapped when its handle is closed.
    NoDelete,
    /// Do not load; only find an object that is already resident.
    NoLoad,
    /// Prefer the object's own symbols over global ones.
    DeepBind,
}

impl LoadOption {
    /// The flag bit that stands for this option in the native flag word.
    pub open spec fn bit(self) -> u64 {
        match self {
            LoadOption::Lazy => LAZY,
            LoadOption::Now => NOW,
            LoadOption::Global => GLOBAL,
            LoadOption::Local => LOCAL,
            LoadOption::NoDelete => NODELETE,
            LoadOption::NoLoad => NOLOAD,
            LoadOption::DeepBind => DEEPBIND,
        }
    }

    /// The flag bit of this option.
    #[verifier::when_used_as_spec(bit)]
    pub fn mask(self) -> (mask: u64)
        ensures
            mask == self.bit(),
    {
        match self {
            LoadOption::Lazy => LAZY,
            LoadOption::Now => NOW,
            LoadOption::Global => GLOBAL,
            LoadOption::Local => LOCAL,
            LoadOption::NoDelete => NODELETE,
            LoadOption::NoLoad => NOLOAD,
            LoadOption::DeepBind => DEEPBIND,
        }
    }
}

/// The flag word `flags` with `option` switched on.
pub open spec fn enable(flags: u64, option: LoadOption) -> u64 {
    flags | option.bit()
}

/// The flag word `flags` after each of `options` has been switched on, in
/// their order.
pub open spec fn enable_all(flags: u64, options: Seq<LoadOption>) -> u64
    decreases options.len(),
{
    if options.len() == 0 {
        flags
    } else {
        enable(enable_all(flags, options.drop_last()), options.last())
    }
}

/// The bit of `option` where it occurs among `options`, no bit where it does
/// not.
pub open spec fn bit_if_present(options: Seq<LoadOption>, option: LoadOption) -> u64 {
    if options.contains(option) {
        option.bit()
    } else {
        0
    }
}

/// The bits of the options that occur among `options`, each once, whatever
/// their order and however often they occur.
pub open spec fn union_of_bits(options: Seq<LoadOption>) -> u64 {
    bit_if_present(options, LoadOption::Lazy)
        | bit_if_present(options, LoadOption::Now)
        | bit_if_present(options, LoadOption::Global)
        | bit_if_present(options, LoadOption::Local)
        | bit_if_present(options, LoadOption::NoDelete)
        | bit_if_present(options, LoadOption::NoLoad)
        | bit_if_present(options, LoadOption::DeepBind)
}

/// Switching an option on twice is switching it on once.
pub proof fn lemma_enable_idempotent(flags: u64, option: LoadOption)
    ensures
        enable(enable(flags, option), option) == enable(flags, option),
{
    let bit = option.bit();
    assert((flags | bit) | bit == flags | bit) by (bit_vector);
}

/// Two options may be switched on in either order.
pub proof fn lemma_enable_commutes(flags: u64, first: LoadOption, second: LoadOption)
    ensures
        enable(enable(flags, first), second) == enable(enable(flags, second), first),
{
    let a = first.bit();
    let b = second.bit();
    assert((flags | a) | b == (flags | b) | a) by (bit_vector);
}

/// Whatever run of options is switched on, the flag word that results is the
/// word before it together with the bit of each option that occurs in the run.
pub proof fn lemma_enable_all_is_union(flags: u64, options: Seq<LoadOption>)
    ensures
        enable_all(flags, options) == flags | union_of_bits(options),
    decreases options.len(),
{
    if options.len() == 0 {
        assert(flags | (0u64 | 0 | 0 | 0 | 0 | 0 | 0) == flags) by (bit_vector);
    } else {
        let earlier = options.drop_last();
        let option = options.last();
        lemma_enable_all_is_union(flags, earlier);
        assert(options =~= earlier.push(option));
        assert forall|other: LoadOption|
            options.contains(other) <==> other == option || earlier.contains(other) by {
            vstd::seq_lib::lemma_seq_contains_after_push(earlier, option, other);
        }
        let k = option.bit();
        let b1 = bit_if_present(earlier, LoadOption::Lazy);
        let b2 = bit_if_present(earlier, LoadOption::Now);
        let b3 = bit_if_present(earlier, LoadOption::Global);
        let b4 = bit_if_present(earlier, LoadOption::Local);
        let b5 = bit_if_present(earlier, LoadOption::NoDelete);
        let b6 = bit_if_present(earlier, LoadOption::NoLoad);
        let b7 = bit_if_present(earlier, LoadOption::DeepBind);
        match option {
            LoadOption::Lazy => {
                assert((flags | (b1 | b2 | b3 | b4 | b5 | b6 | b7)) | k == flags | (k | b2 | b3
                    | b4 | b5 | b6 | b7)) by (bit_vector)
                    requires
                        b1 == 0 || b1 == k,
                ;
            },
            LoadOption::Now => {
                assert((flags | (b1 | b2 | b3 | b4 | b5 | b6 | b7)) | k == flags | (b1 | k | b3
                    | b4 | b5 | b6 | b7)) by (bit_vector)
                    requires
                        b2 == 0 || b2 == k,
                ;
            },
            LoadOption::Global => {
                assert((flags | (b1 | b2 | b3 | b4 | b5 | b6 | b7)) | k == flags | (b1 | b2 | k
                    | b4 | b5 | b6 | b7)) by (bit_vector)
                    requires
                        b3 == 0 || b3 == k,
                ;
            },
            LoadOption::Local => {
                assert((flags | (b1 | b2 | b3 | b4 | b5 | b6 | b7)) | k == flags | (b1 | b2 | b3
                    | k | b5 | b6 | b7)) by (bit_vector)
                    requires
                        b4 == 0 || b4 == k,
                ;
            },
            LoadOption::NoDelete => {
                assert((flags | (b1 | b2 | b3 | b4 | b5 | b6 | b7)) | k == flags | (b1 | b2 | b3
                    | b4 | k | b6 | b7)) by (bit_vector)
                    requires
                        b5 == 0 || b5 == k,
                ;
            },
            LoadOption::NoLoad => {
                assert((flags | (b1 | b2 | b3 | b4 | b5 | b6 | b7)) | k == flags | (b1 | b2 | b3
                    | b4 | b5 | k | b7)) by (bit_vector)
                    requires
                        b6 == 0 || b6 == k,
                ;
            },
            LoadOption::DeepBind => {
                assert((flags | (b1 | b2 | b3 | b4 | b5 | b6 | b7)) | k == flags | (b1 | b2 | b3
                    | b4 | b5 | b6 | k)) by (bit_vector)
                    requires
                        b7 == 0 || b7 == k,
                ;
            },
        }
    }
}

/// Two runs of options in which the same options occur give the same flag
/// word: neither the order of the calls nor a repeated call shows in it.
pub proof fn lemma_enable_all_order_and_repeats_irrelevant(
    flags: u64,
    one: Seq<LoadOption>,
    other: Seq<LoadOption>,
)
    requires
        forall|option: LoadOption| one.contains(option) <==> other.contains(option),
    ensures
        enable_all(flags, one) == enable_all(flags, other),
{
    lemma_enable_all_is_union(flags, one);
    lemma_enable_all_is_union(flags, other);
}

/// True when `flags` holds no bit but those of the options.
pub open spec fn only_option_bits(flags: u64) -> bool {
    flags & !ALL_OPTIONS == 0
}

/// Switching an option on leaves a word of option bits a word of option bits.
pub proof fn lemma_enable_keeps_option_bits(flags: u64, option: LoadOption)
    requires
        only_option_bits(flags),
    ensures
        only_option_bits(enable(flags, option)),
{
    let bit = option.bit();
    assert((flags | bit) & !ALL_OPTIONS == 0) by (bit_vector)
        requires
            flags & !ALL_OPTIONS == 0,
            bit == LAZY || bit == NOW || bit == GLOBAL || bit == LOCAL || bit == NODELETE || bit
                == NOLOAD || bit == DEEPBIND,
    ;
}

/// A word of option bits is no larger than all of them together, so it fits
/// the native loader's signed 32-bit flag argument.
pub proof fn lemma_option_bits_bounded(flags: u64)
    requires
        only_option_bits(flags),
    ensures
        flags <= ALL_OPTIONS,
        ALL_OPTIONS <= i32::MAX,
{
    assert(flags <= ALL_OPTIONS) by (bit_vector)
        requires
            flags & !ALL_OPTIONS == 0,
    ;
}

/// [`ALL_OPTIONS`] is the bits of the seven options together, and nothing
/// else.
pub proof fn lemma_all_options_is_union()
    ensures
        ALL_OPTIONS == LAZY | NOW | GLOBAL | LOCAL | NODELETE | NOLOAD | DEEPBIND,
{
    assert(ALL_OPTIONS == LAZY | NOW | GLOBAL | LOCAL | NODELETE | NOLOAD | DEEPBIND)
        by (bit_vector);
}

/// Any two different options have different bits, and no bit in common.
pub proof fn lemma_option_bits_disjoint(a: LoadOption, b: LoadOption)
    requires
        a != b,
    ensures
        a.bit() != b.bit(),
        a.bit() & b.bit() == 0,
{
    assert(LAZY & NOW == 0 && LAZY & GLOBAL == 0 && LAZY & LOCAL == 0 && LAZY & NODELETE == 0
        && LAZY & NOLOAD == 0 && LAZY & DEEPBIND == 0 && NOW & GLOBAL == 0 && NOW & LOCAL == 0
        && NOW & NODELETE == 0 && NOW & NOLOAD == 0 && NOW & DEEPBIND == 0 && GLOBAL & LOCAL == 0
        && GLOBAL & NODELETE == 0 && GLOBAL & NOLOAD == 0 && GLOBAL & DEEPBIND == 0 && LOCAL
        & NODELETE == 0 && LOCAL & NOLOAD == 0 && LOCAL & DEEPBIND == 0 && NODELETE & NOLOAD == 0
        && NODELETE & DEEPBIND == 0 && NOLOAD & DEEPBIND == 0) by (bit_vector);
    let x = a.bit();
    let y = b.bit();
    assert(x & y == y & x) by (bit_vector);
}

} // verus!
