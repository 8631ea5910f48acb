use fateful_peripheral::errors::{
    get_error_message, get_last_error, last_error_length, update_last_error, update_last_error_dyn,
    BridgeError, ErrBuf, ErrorSlot,
};

fn buf_of_len(len: usize) -> ErrBuf {
    ErrBuf { null: false, bytes: vec![0xAAu8; len] }
}

#[test]
fn fresh_slot_has_no_pending_error() {
    let slot = ErrorSlot::empty();
    assert_eq!(last_error_length(&slot), 0);
    assert!(get_error_message(&slot).is_none());
}

#[test]
fn no_pending_error_reports_zero_and_leaves_buffer_untouched() {
    let mut slot = ErrorSlot::empty();
    let mut buf = buf_of_len(8);
    let r = get_last_error(&mut slot, &mut buf, 8);
    assert_eq!(r, 0);
    assert_eq!(buf.bytes, vec![0xAAu8; 8]);
    assert_eq!(last_error_length(&slot), 0);
}

#[test]
fn null_buffer_returns_minus_one_with_no_error_pending() {
    let mut slot = ErrorSlot::empty();
    let mut buf = ErrBuf { null: true, bytes: Vec::new() };
    assert_eq!(get_last_error(&mut slot, &mut buf, 64), -1);
    // the misuse itself became the pending error
    assert!(last_error_length(&slot) > 0);
}

#[test]
fn null_buffer_returns_minus_one_with_an_error_pending() {
    let mut slot = ErrorSlot::empty();
    update_last_error(&mut slot, BridgeError { message: b"xyz".to_vec() });
    let mut buf = ErrBuf { null: true, bytes: Vec::new() };
    assert_eq!(get_last_error(&mut slot, &mut buf, 0), -1);
    assert_eq!(
        get_error_message(&slot).unwrap(),
        b"recieved a null pointer where it wasn't expected".to_vec()
    );
}

#[test]
fn undersized_buffer_returns_minus_two_and_does_not_write() {
    let mut slot = ErrorSlot::empty();
    update_last_error(&mut slot, BridgeError { message: b"xyz".to_vec() });
    // "xyz" plus the nul needs 4 bytes; offer one byte short of that
    let mut buf = buf_of_len(3);
    let r = get_last_error(&mut slot, &mut buf, 3);
    assert_eq!(r, -2);
    assert_eq!(buf.bytes, vec![0xAAu8; 3]);
    assert_eq!(
        get_error_message(&slot).unwrap(),
        b"buffer not long enough for error message".to_vec()
    );
}

#[test]
fn successful_read_copies_message_and_nul_terminator() {
    let mut slot = ErrorSlot::empty();
    update_last_error(&mut slot, BridgeError { message: b"xyz".to_vec() });
    assert_eq!(last_error_length(&slot), 4);
    let mut buf = buf_of_len(8);
    let r = get_last_error(&mut slot, &mut buf, 8);
    assert_eq!(r, 4);
    assert_eq!(&buf.bytes[..4], b"xyz\0");
    // the rest of the buffer is left as it was
    assert_eq!(&buf.bytes[4..], &[0xAAu8; 4]);
}

#[test]
fn successful_read_does_not_clear_the_slot() {
    let mut slot = ErrorSlot::empty();
    update_last_error(&mut slot, BridgeError { message: b"xyz".to_vec() });
    let mut buf = buf_of_len(8);
    assert_eq!(get_last_error(&mut slot, &mut buf, 8), 4);
    let mut buf2 = buf_of_len(8);
    assert_eq!(get_last_error(&mut slot, &mut buf2, 8), 4);
    assert_eq!(&buf2.bytes[..4], b"xyz\0");
}

#[test]
fn update_overwrites_the_previous_error() {
    let mut slot = ErrorSlot::empty();
    update_last_error(&mut slot, BridgeError { message: b"first".to_vec() });
    update_last_error(&mut slot, BridgeError { message: b"second one".to_vec() });
    assert_eq!(last_error_length(&slot), 11);
    assert_eq!(get_error_message(&slot).unwrap(), b"second one".to_vec());
}

#[test]
fn dynamically_typed_error_renders_its_message() {
    let mut slot = ErrorSlot::empty();
    update_last_error_dyn(&mut slot, anyhow::Error::msg("boom"));
    assert_eq!(last_error_length(&slot), 5);
    assert_eq!(get_error_message(&slot).unwrap(), b"boom".to_vec());
}

#[test]
fn exactly_fitting_buffer_succeeds() {
    let mut slot = ErrorSlot::empty();
    update_last_error(&mut slot, BridgeError { message: b"xyz".to_vec() });
    let mut buf = buf_of_len(4);
    let r = get_last_error(&mut slot, &mut buf, 4);
    assert_eq!(r, 4);
    assert_eq!(buf.bytes, b"xyz\0".to_vec());
}
