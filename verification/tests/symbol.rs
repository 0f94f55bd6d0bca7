use dynlib::symbol::MAX_ARITY;
use dynlib::{CallShape, DynLib, LoadError};

fn opened(handle: u64) -> DynLib {
    DynLib::new()
        .load_lazy()
        .open(b"libanswer.so".to_vec())
        .unwrap()
        .complete(handle)
        .unwrap()
}

#[test]
fn call_shape_takes_up_to_eight_arguments() {
    assert_eq!(MAX_ARITY, 8);
    for arity in 0..=8u8 {
        for returns_value in [true, false] {
            let shape = CallShape::new(arity, returns_value).unwrap();
            assert_eq!(shape.arity(), arity);
            assert_eq!(shape.returns_value(), returns_value);
        }
    }
}

#[test]
fn call_shape_refuses_more_than_eight_arguments() {
    assert_eq!(CallShape::new(9, true), None);
    assert_eq!(CallShape::new(9, false), None);
    assert_eq!(CallShape::new(255, true), None);
}

#[test]
fn there_are_eighteen_shapes() {
    let mut shapes = Vec::new();
    for arity in 0..=255u8 {
        for returns_value in [true, false] {
            if let Some(shape) = CallShape::new(arity, returns_value) {
                assert!(!shapes.contains(&shape));
                shapes.push(shape);
            }
        }
    }
    assert_eq!(shapes.len(), 18);
}

#[test]
fn resolve_refuses_a_name_with_an_embedded_zero_byte() {
    let lib = opened(11);
    let shape = CallShape::new(1, true).unwrap();
    assert_eq!(
        lib.resolve(b"ans\0wer".to_vec(), shape).unwrap_err(),
        LoadError::InvalidInput
    );
    assert_eq!(
        lib.resolve(b"answer\0".to_vec(), shape).unwrap_err(),
        LoadError::InvalidInput
    );
    assert_eq!(lib.handle(), 11);
}

#[test]
fn symbol_request_holds_the_handle_the_terminated_name_and_the_shape() {
    let lib = opened(0x5555_0000);
    let shape = CallShape::new(3, false).unwrap();
    let request = lib.resolve(b"fill_buffer".to_vec(), shape).unwrap();
    assert_eq!(request.handle(), 0x5555_0000);
    assert_eq!(request.name().as_slice(), b"fill_buffer\0");
    assert_eq!(request.shape(), shape);
}

#[test]
fn resolving_an_exported_symbol_gives_its_address_under_the_declared_shape() {
    let lib = opened(0x1000);
    let shape = CallShape::new(0, true).unwrap();
    let request = lib.resolve(b"answer".to_vec(), shape).unwrap();
    assert_eq!(request.name().as_slice(), b"answer\0");
    let symbol = request.complete(0x7fff_0000_1234).unwrap();
    assert_eq!(symbol.address(), 0x7fff_0000_1234);
    assert_eq!(symbol.shape().arity(), 0);
    assert!(symbol.shape().returns_value());
    assert!(lib.is_open());
}

#[test]
fn resolving_a_symbol_that_is_not_exported_reports_the_loader_message() {
    let lib = opened(0x1000);
    let shape = CallShape::new(2, true).unwrap();
    let request = lib.resolve(b"no_such_function".to_vec(), shape).unwrap();
    let diagnostic = request.complete(0).unwrap_err();
    let error = diagnostic.complete(Some(
        b"libanswer.so: undefined symbol: no_such_function".to_vec(),
    ));
    assert_eq!(
        error,
        LoadError::NativeOperationFailed(
            "libanswer.so: undefined symbol: no_such_function".to_string()
        )
    );
    assert!(!error.message().is_empty());
}

#[test]
fn a_failed_resolution_without_readable_diagnostic_is_reported_as_such() {
    let lib = opened(0x1000);
    let shape = CallShape::new(8, false).unwrap();
    let first = lib
        .resolve(b"missing".to_vec(), shape)
        .unwrap()
        .complete(0)
        .unwrap_err();
    assert_eq!(
        first.complete(Some(vec![0x80])),
        LoadError::NativeOperationFailedDiagnosticUnavailable
    );
    let second = lib
        .resolve(b"missing".to_vec(), shape)
        .unwrap()
        .complete(0)
        .unwrap_err();
    assert_eq!(
        second.complete(None),
        LoadError::NativeOperationFailedDiagnosticUnavailable
    );
}

#[test]
fn resolutions_do_not_touch_the_handle_and_release_still_closes_once() {
    let mut lib = opened(99);
    let value = CallShape::new(1, true).unwrap();
    let void = CallShape::new(1, false).unwrap();
    let found = lib.resolve(b"twice".to_vec(), value).unwrap().complete(0x4000);
    assert_eq!(found.unwrap().address(), 0x4000);
    let failed = lib.resolve(b"absent".to_vec(), void).unwrap().complete(0);
    assert!(failed.is_err());
    let refused = lib.resolve(vec![0], void);
    assert!(refused.is_err());
    assert_eq!(lib.handle(), 99);
    assert_eq!(lib.release(), Some(99));
    assert_eq!(lib.release(), None);
}

#[test]
fn an_empty_symbol_name_is_handed_on() {
    let lib = opened(5);
    let shape = CallShape::new(0, false).unwrap();
    let request = lib.resolve(Vec::new(), shape).unwrap();
    assert_eq!(request.name().as_slice(), &[0u8]);
}
