use fateful_peripheral::stateless::{
    validate_drop, validate_init, validate_read, validate_write, FnSig, ParamShape, ReturnShape,
    TypeShape,
};

fn u8_param() -> ParamShape {
    ParamShape::Typed(TypeShape::Ident(b"u8".to_vec()))
}

fn sig(name: &[u8], inputs: Vec<ParamShape>, output: ReturnShape) -> FnSig {
    FnSig {
        is_unsafe: true,
        ident: name.to_vec(),
        inherited_visibility: true,
        variadic: false,
        abi_override: false,
        generic_params: 0,
        where_clause: false,
        inputs,
        output,
    }
}

fn init_sig() -> FnSig {
    sig(b"init", vec![u8_param()], ReturnShape::Default)
}

#[test]
fn valid_init_signature_is_accepted() {
    assert!(validate_init(&init_sig()).is_ok());
    // returning the empty tuple counts as returning nothing
    let s = sig(b"init", vec![u8_param()], ReturnShape::Ty(TypeShape::Tuple(Vec::new())));
    assert!(validate_init(&s).is_ok());
}

#[test]
fn init_must_be_unsafe() {
    let mut s = init_sig();
    s.is_unsafe = false;
    assert_eq!(
        validate_init(&s).unwrap_err(),
        "expected a function signature of `unsafe fn init(u8)`"
    );
}

#[test]
fn init_must_have_default_visibility() {
    let mut s = init_sig();
    s.inherited_visibility = false;
    assert!(validate_init(&s).is_err());
}

#[test]
fn init_rejects_variadics_abi_overrides_and_generics() {
    let mut s = init_sig();
    s.variadic = true;
    assert!(validate_init(&s).is_err());
    let mut s = init_sig();
    s.abi_override = true;
    assert!(validate_init(&s).is_err());
    let mut s = init_sig();
    s.generic_params = 1;
    assert!(validate_init(&s).is_err());
    let mut s = init_sig();
    s.where_clause = true;
    assert!(validate_init(&s).is_err());
}

#[test]
fn init_must_be_named_init() {
    let s = sig(b"start", vec![u8_param()], ReturnShape::Default);
    assert!(validate_init(&s).is_err());
}

#[test]
fn init_takes_exactly_one_u8() {
    let s = sig(b"init", Vec::new(), ReturnShape::Default);
    assert!(validate_init(&s).is_err());
    let s = sig(b"init", vec![u8_param(), u8_param()], ReturnShape::Default);
    assert!(validate_init(&s).is_err());
    let s = sig(
        b"init",
        vec![ParamShape::Typed(TypeShape::Ident(b"u16".to_vec()))],
        ReturnShape::Default,
    );
    assert!(validate_init(&s).is_err());
    let s = sig(b"init", vec![ParamShape::Receiver], ReturnShape::Default);
    assert!(validate_init(&s).is_err());
}

#[test]
fn init_returns_nothing() {
    let s = sig(b"init", vec![u8_param()], ReturnShape::Ty(TypeShape::Ident(b"u8".to_vec())));
    assert!(validate_init(&s).is_err());
}

#[test]
fn valid_read_signature_is_accepted() {
    let s = sig(b"read", vec![u8_param()], ReturnShape::Ty(TypeShape::Ident(b"u8".to_vec())));
    assert!(validate_read(&s).is_ok());
    // a one-element tuple of u8 also counts
    let s = sig(
        b"read",
        vec![u8_param()],
        ReturnShape::Ty(TypeShape::Tuple(vec![TypeShape::Ident(b"u8".to_vec())])),
    );
    assert!(validate_read(&s).is_ok());
}

#[test]
fn read_must_return_a_u8() {
    let s = sig(b"read", vec![u8_param()], ReturnShape::Default);
    assert_eq!(
        validate_read(&s).unwrap_err(),
        "expected a function signature of `unsafe fn read(u8) -> u8`"
    );
    let s = sig(b"read", vec![u8_param()], ReturnShape::Ty(TypeShape::Tuple(Vec::new())));
    assert!(validate_read(&s).is_err());
    // a two-element tuple is not the single-element shape
    let s = sig(
        b"read",
        vec![u8_param()],
        ReturnShape::Ty(TypeShape::Tuple(vec![
            TypeShape::Ident(b"u8".to_vec()),
            TypeShape::Ident(b"u8".to_vec()),
        ])),
    );
    assert!(validate_read(&s).is_err());
}

#[test]
fn valid_write_signature_is_accepted() {
    let s = sig(b"write", vec![u8_param(), u8_param()], ReturnShape::Default);
    assert!(validate_write(&s).is_ok());
}

#[test]
fn write_takes_exactly_two_u8s_and_returns_nothing() {
    let s = sig(b"write", vec![u8_param()], ReturnShape::Default);
    assert_eq!(
        validate_write(&s).unwrap_err(),
        "expected a function signature of `unsafe fn write(u8, u8)`"
    );
    let s = sig(b"write", vec![u8_param(), u8_param(), u8_param()], ReturnShape::Default);
    assert!(validate_write(&s).is_err());
    let s = sig(
        b"write",
        vec![u8_param(), u8_param()],
        ReturnShape::Ty(TypeShape::Ident(b"u8".to_vec())),
    );
    assert!(validate_write(&s).is_err());
}

#[test]
fn valid_drop_signature_is_accepted() {
    let s = sig(b"drop", Vec::new(), ReturnShape::Default);
    assert!(validate_drop(&s).is_ok());
    let s = sig(b"drop", Vec::new(), ReturnShape::Ty(TypeShape::Tuple(Vec::new())));
    assert!(validate_drop(&s).is_ok());
}

#[test]
fn drop_takes_no_parameters_and_returns_nothing() {
    let s = sig(b"drop", vec![u8_param()], ReturnShape::Default);
    assert_eq!(
        validate_drop(&s).unwrap_err(),
        "expected a function signature of `unsafe fn drop()`"
    );
    let s = sig(b"drop", Vec::new(), ReturnShape::Ty(TypeShape::Ident(b"u8".to_vec())));
    assert!(validate_drop(&s).is_err());
}

#[test]
fn multi_segment_and_exotic_types_are_not_u8() {
    let s = sig(b"init", vec![ParamShape::Typed(TypeShape::Other)], ReturnShape::Default);
    assert!(validate_init(&s).is_err());
    let s = sig(
        b"init",
        vec![ParamShape::Typed(TypeShape::Tuple(vec![TypeShape::Ident(b"u8".to_vec())]))],
        ReturnShape::Default,
    );
    assert!(validate_init(&s).is_err());
}
