use ctypes::dll::{open_outcome, resolve_outcome, SymbolLookup};
use ctypes::error::CtypesError;
use ctypes::host::HostValue;
use ctypes::pointer::PyCPointer;

#[test]
fn failed_open_is_a_load_error() {
    let r: Result<u32, CtypesError> =
        open_outcome("/no/such/lib.so", Err("cannot open shared object file".to_string()));
    match r {
        Err(CtypesError::LoadError { path, diagnostic }) => {
            assert_eq!(path, "/no/such/lib.so");
            assert_eq!(diagnostic, "cannot open shared object file");
        }
        other => panic!("unexpected {:?}", other),
    }
    let ok: Result<u32, CtypesError> = open_outcome("libm.so.6", Ok(7));
    assert!(matches!(ok, Ok(7)));
}

#[test]
fn missing_symbol_differs_from_invalid_handle() {
    let r = resolve_outcome(SymbolLookup::Missing, "libm.so.6", "nosuch", None, None);
    match r {
        Err(CtypesError::SymbolNotFoundError { symbol, library }) => {
            assert_eq!(symbol, "nosuch");
            assert_eq!(library, "libm.so.6");
        }
        other => panic!("unexpected {:?}", other),
    }
    let r = resolve_outcome(SymbolLookup::NotAHandle, "", "cos", None, None);
    assert!(matches!(r, Err(CtypesError::InvalidHandleError)));
}

#[test]
fn found_symbol_carries_declared_types() {
    let r = resolve_outcome(
        SymbolLookup::Found(0x1000),
        "libm.so.6",
        "cos",
        Some(vec![HostValue::Other("c_double".to_string())]),
        Some(HostValue::Other("c_double".to_string())),
    )
    .unwrap();
    assert_eq!(r.address, 0x1000);
    assert_eq!(r.argtypes.map(|v| v.len()), Some(1));
    assert!(matches!(r.restype, Some(HostValue::Other(ref n)) if n == "c_double"));
}

#[test]
fn pointer_placeholder() {
    let p = PyCPointer::new();
    assert_eq!(p.debug_text(), "_Pointer {}");
    assert!(matches!(
        PyCPointer::from_param(&HostValue::Null),
        Err(CtypesError::NotImplementedError)
    ));
}
