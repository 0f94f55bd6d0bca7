use dynlib::flags::{
    ALL_OPTIONS, DEEPBIND, GLOBAL, LAZY, LOCAL, NODELETE, NOLOAD, NOW,
};
use dynlib::{DynLib, LoadOption};

const OPTIONS: [LoadOption; 7] = [
    LoadOption::Lazy,
    LoadOption::Now,
    LoadOption::Global,
    LoadOption::Local,
    LoadOption::NoDelete,
    LoadOption::NoLoad,
    LoadOption::DeepBind,
];

#[test]
fn new_library_has_no_flag_and_no_handle() {
    let lib = DynLib::new();
    assert_eq!(lib.flags(), 0);
    assert_eq!(lib.handle(), 0);
    assert!(!lib.is_open());
}

#[test]
fn each_builder_sets_its_own_bit() {
    assert_eq!(DynLib::new().load_lazy().flags(), 1);
    assert_eq!(DynLib::new().load_now().flags(), 2);
    assert_eq!(DynLib::new().load_global().flags(), 256);
    assert_eq!(DynLib::new().load_local().flags(), 0);
    assert_eq!(DynLib::new().load_nodelete().flags(), 4096);
    assert_eq!(DynLib::new().load_noload().flags(), 4);
    assert_eq!(DynLib::new().load_deepbind().flags(), 8);
}

#[test]
fn builders_leave_the_handle_alone() {
    let lib = DynLib::new()
        .load_lazy()
        .load_now()
        .load_global()
        .load_local()
        .load_nodelete()
        .load_noload()
        .load_deepbind();
    assert_eq!(lib.handle(), 0);
    assert_eq!(lib.flags(), 4367);
}

#[test]
fn option_masks_have_the_documented_values() {
    assert_eq!(LoadOption::Lazy.mask(), 1);
    assert_eq!(LoadOption::Now.mask(), 2);
    assert_eq!(LoadOption::Global.mask(), 256);
    assert_eq!(LoadOption::Local.mask(), 0);
    assert_eq!(LoadOption::NoDelete.mask(), 4096);
    assert_eq!(LoadOption::NoLoad.mask(), 4);
    assert_eq!(LoadOption::DeepBind.mask(), 8);
    assert_eq!(
        [LAZY, NOW, GLOBAL, LOCAL, NODELETE, NOLOAD, DEEPBIND],
        [1, 2, 256, 0, 4096, 4, 8]
    );
}

#[test]
fn option_masks_are_the_native_constants() {
    assert_eq!(LAZY, libc::RTLD_LAZY as u64);
    assert_eq!(NOW, libc::RTLD_NOW as u64);
    assert_eq!(GLOBAL, libc::RTLD_GLOBAL as u64);
    assert_eq!(LOCAL, libc::RTLD_LOCAL as u64);
    assert_eq!(NODELETE, libc::RTLD_NODELETE as u64);
    assert_eq!(NOLOAD, libc::RTLD_NOLOAD as u64);
    assert_eq!(DEEPBIND, libc::RTLD_DEEPBIND as u64);
}

#[test]
fn option_masks_are_distinct_and_disjoint() {
    for (i, a) in OPTIONS.iter().enumerate() {
        for (j, b) in OPTIONS.iter().enumerate() {
            if i != j {
                assert_ne!(a.mask(), b.mask(), "{:?} and {:?}", a, b);
                assert_eq!(a.mask() & b.mask(), 0, "{:?} and {:?}", a, b);
            }
        }
    }
}

#[test]
fn global_and_local_share_no_bit_with_any_other_option() {
    for other in OPTIONS {
        if other != LoadOption::Global {
            assert_ne!(other.mask(), GLOBAL);
            assert_eq!(other.mask() & GLOBAL, 0);
        }
        if other != LoadOption::Local {
            assert_ne!(other.mask(), LOCAL);
            assert_eq!(other.mask() & LOCAL, 0);
        }
    }
    assert_ne!(GLOBAL, LAZY);
    assert_ne!(GLOBAL, NOW);
    assert_ne!(LOCAL, LAZY);
    assert_ne!(LOCAL, NOW);
}

#[test]
fn all_options_is_every_bit_together() {
    let mut union = 0u64;
    for option in OPTIONS {
        union |= option.mask();
    }
    assert_eq!(union, ALL_OPTIONS);
    assert_eq!(ALL_OPTIONS, 0x110f);
}

#[test]
fn enabling_twice_is_enabling_once() {
    for option in OPTIONS {
        let once = DynLib::new().enable(option).flags();
        let twice = DynLib::new().enable(option).enable(option).flags();
        assert_eq!(once, twice);
        assert_eq!(once, option.mask());
    }
    assert_eq!(DynLib::new().load_now().load_now().flags(), 2);
}

#[test]
fn enabling_in_either_order_gives_the_same_word() {
    for a in OPTIONS {
        for b in OPTIONS {
            let ab = DynLib::new().enable(a).enable(b).flags();
            let ba = DynLib::new().enable(b).enable(a).flags();
            assert_eq!(ab, ba);
            assert_eq!(ab, a.mask() | b.mask());
        }
    }
    assert_eq!(DynLib::new().load_lazy().load_global().flags(), 257);
    assert_eq!(DynLib::new().load_global().load_lazy().flags(), 257);
}

#[test]
fn every_run_of_three_options_gives_the_union_of_their_bits() {
    for a in OPTIONS {
        for b in OPTIONS {
            for c in OPTIONS {
                let word = DynLib::new().enable(a).enable(b).enable(c).flags();
                assert_eq!(word, a.mask() | b.mask() | c.mask());
                assert_eq!(word & !ALL_OPTIONS, 0);
            }
        }
    }
}

#[test]
fn a_long_run_with_repeats_gives_the_union() {
    let lib = DynLib::new()
        .load_nodelete()
        .load_lazy()
        .load_nodelete()
        .load_local()
        .load_deepbind()
        .load_lazy()
        .load_deepbind();
    assert_eq!(lib.flags(), 4096 | 1 | 8);
    assert_eq!(lib.flags(), 4105);
}

#[test]
fn local_does_not_clear_global() {
    assert_eq!(DynLib::new().load_global().load_local().flags(), 256);
    assert_eq!(DynLib::new().load_local().load_global().flags(), 256);
}

#[test]
fn enable_agrees_with_the_named_builders() {
    assert_eq!(DynLib::new().enable(LoadOption::Lazy).flags(), DynLib::new().load_lazy().flags());
    assert_eq!(DynLib::new().enable(LoadOption::Now).flags(), DynLib::new().load_now().flags());
    assert_eq!(
        DynLib::new().enable(LoadOption::Global).flags(),
        DynLib::new().load_global().flags()
    );
    assert_eq!(
        DynLib::new().enable(LoadOption::Local).flags(),
        DynLib::new().load_local().flags()
    );
    assert_eq!(
        DynLib::new().enable(LoadOption::NoDelete).flags(),
        DynLib::new().load_nodelete().flags()
    );
    assert_eq!(
        DynLib::new().enable(LoadOption::NoLoad).flags(),
        DynLib::new().load_noload().flags()
    );
    assert_eq!(
        DynLib::new().enable(LoadOption::DeepBind).flags(),
        DynLib::new().load_deepbind().flags()
    );
}
