//! The last-error channel.
//!
//! A failing bridge operation records a structured error in a single slot;
//! the host later asks for the length of the rendered message and copies
//! it out through a caller-supplied buffer. The slot is scoped to one
//! execution thread by its owner: this module works on an explicitly
//! passed [`ErrorSlot`] value, and the shim layer keeps one such value per
//! thread.

use vstd::prelude::*;
use vstd::string::StringSliceAdditionalSpecFns;

verus! {

/// The largest message length (in bytes, excluding the terminating nul)
/// that the retrieval protocol can report through its `i32` length
/// channel.
pub const MAX_MESSAGE_BYTES: usize = 0x7fff_fffe;

/// A bridge error: the rendered message text as bytes, without a
/// terminating nul.
pub struct BridgeError {
    pub message: Vec<u8>,
}

impl View for BridgeError {
    type V = Seq<u8>;

    open spec fn view(&self) -> Seq<u8> {
        self.message@
    }
}

impl BridgeError {
    /// The message is short enough for the retrieval protocol to report
    /// its nul-terminated length as an `i32`.
    pub open spec fn wf(&self) -> bool {
        self.message@.len() <= MAX_MESSAGE_BYTES
    }
}

/// The per-thread slot holding the most recent failure, or nothing if no
/// operation has failed yet. It is overwritten by each failure and never
/// implicitly cleared.
pub struct ErrorSlot {
    last: Option<BridgeError>,
}

impl View for ErrorSlot {
    type V = Option<Seq<u8>>;

    closed spec fn view(&self) -> Option<Seq<u8>> {
        match self.last {
            Some(e) => Some(e@),
            None => None,
        }
    }
}

impl ErrorSlot {
    /// Any stored message obeys the protocol's length bound.
    pub closed spec fn inv(&self) -> bool {
        self.last matches Some(e) ==> e.wf()
    }

    /// A fresh slot with no pending error.
    pub fn empty() -> (r: ErrorSlot)
        ensures
            r@ is None,
            r.inv(),
    {
        ErrorSlot { last: None }
    }
}

/// The number of bytes `get_last_error` needs for the pending message,
/// including the terminating nul; `0` if no error is pending.
pub open spec fn last_error_length_spec(s: Option<Seq<u8>>) -> int {
    match s {
        Some(m) => m.len() + 1int,
        None => 0,
    }
}

/// Sets the last error to the provided error.
pub fn update_last_error(slot: &mut ErrorSlot, err: BridgeError)
    requires
        old(slot).inv(),
        err.wf(),
    ensures
        final(slot).inv(),
        final(slot)@ == Some(err@),
{
    slot.last = Some(err);
}

/// Gets the length of the last error message in bytes (*including* the
/// terminating nul byte), or `0` if no error is pending.
pub fn last_error_length(slot: &ErrorSlot) -> (r: i32)
    requires
        slot.inv(),
    ensures
        r == last_error_length_spec(slot@),
{
    match &slot.last {
        Some(e) => (e.message.len() + 1) as i32,
        None => 0,
    }
}

/// Gets a copy of the pending error message, if one is pending.
pub fn get_error_message(slot: &ErrorSlot) -> (r: Option<Vec<u8>>)
    ensures
        match r {
            Some(m) => slot@ == Some(m@),
            None => slot@ is None,
        },
{
    match &slot.last {
        Some(e) => Some(copy_bytes(&e.message)),
        None => None,
    }
}

/// The caller-supplied destination for `get_last_error`: either a null
/// pointer, or a region of writable memory. `bytes` models the pointee
/// region byte for byte.
pub struct ErrBuf {
    pub null: bool,
    pub bytes: Vec<u8>,
}

/// Writes the last error message, nul-terminated, into the provided
/// buffer of capacity `length`, returning the number of bytes written.
///
/// Returns `0` if there is nothing to write (buffer untouched).
/// Returns `-1` if the buffer is null (and records that misuse as the new
/// last error).
/// Returns `-2` if the buffer is too small for the message and its nul
/// terminator (buffer untouched, misuse recorded as the new last error).
/// A successful read does not clear the slot.
pub fn get_last_error(slot: &mut ErrorSlot, buf: &mut ErrBuf, length: i32) -> (r: i32)
    requires
        old(slot).inv(),
        !old(buf).null ==> 0 <= length && old(buf).bytes@.len() == length as int,
    ensures
        final(slot).inv(),
        final(buf).null == old(buf).null,
        old(buf).null ==> r == -1 && final(slot)@ == Some(null_buffer_message())
            && final(buf).bytes@ == old(buf).bytes@,
        !old(buf).null ==> match old(slot)@ {
            None => r == 0 && final(buf).bytes@ == old(buf).bytes@ && final(slot)@ == old(slot)@,
            Some(m) => {
                if m.len() + 1 > length {
                    r == -2 && final(buf).bytes@ == old(buf).bytes@ && final(slot)@ == Some(
                        undersized_buffer_message(),
                    )
                } else {
                    r == m.len() + 1 && final(slot)@ == old(slot)@ && final(buf).bytes@ == m + seq![
                        0u8,
                    ] + old(buf).bytes@.skip(m.len() + 1int)
                }
            },
        },
{
    if buf.null {
        proof {
            reveal_strlit("recieved a null pointer where it wasn't expected");
        }
        let err = error_from_text("recieved a null pointer where it wasn't expected");
        update_last_error(slot, err);
        return -1;
    }
    let msg_len: usize = match &slot.last {
        Some(e) => e.message.len(),
        None => {
            return 0;
        },
    };
    if msg_len + 1 > length as usize {
        proof {
            reveal_strlit("buffer not long enough for error message");
        }
        let err = error_from_text("buffer not long enough for error message");
        update_last_error(slot, err);
        return -2;
    }
    let mut i: usize = 0;
    while i < msg_len
        invariant
            slot.inv(),
            slot@ == old(slot)@,
            slot@ matches Some(m) && m.len() == msg_len,
            i <= msg_len,
            msg_len < length as int,
            !buf.null,
            buf.bytes@.len() == old(buf).bytes@.len() == length as int,
            buf.bytes@ == (slot@->Some_0).take(i as int) + old(buf).bytes@.skip(i as int),
        decreases msg_len - i,
    {
        let b: u8 = match &slot.last {
            Some(e) => e.message[i],
            None => 0,
        };
        buf.bytes[i] = b;
        proof {
            assert(buf.bytes@ =~= (slot@->Some_0).take(i + 1) + old(buf).bytes@.skip(i + 1));
        }
        i = i + 1;
    }
    buf.bytes[msg_len] = 0u8;
    proof {
        let m = slot@->Some_0;
        assert(buf.bytes@ =~= m + seq![0u8] + old(buf).bytes@.skip(msg_len + 1));
    }
    (msg_len + 1) as i32
}

/// The message recorded when `get_last_error` is handed a null pointer.
pub open spec fn null_buffer_chars() -> Seq<char> {
    ("recieved a null pointer where it wasn't expected")@
}

/// Its rendering as bytes.
pub open spec fn null_buffer_message() -> Seq<u8> {
    vstd::utf8::encode_utf8(null_buffer_chars())
}

/// The message recorded when the caller's buffer cannot hold the pending
/// message and its terminator.
pub open spec fn undersized_buffer_chars() -> Seq<char> {
    ("buffer not long enough for error message")@
}

/// Its rendering as bytes.
pub open spec fn undersized_buffer_message() -> Seq<u8> {
    vstd::utf8::encode_utf8(undersized_buffer_chars())
}

/// A UTF-8 encoding spends at most four bytes per character.
pub proof fn lemma_encode_len_bound(chars: Seq<char>)
    ensures
        vstd::utf8::encode_utf8(chars).len() <= 4 * chars.len(),
    decreases chars.len(),
{
    if chars.len() != 0 {
        lemma_encode_len_bound(chars.drop_first());
    }
}

/// Builds a `BridgeError` carrying the UTF-8 rendering of `msg`.
pub fn error_from_text(msg: &str) -> (r: BridgeError)
    requires
        4 * msg@.len() <= MAX_MESSAGE_BYTES,
    ensures
        r@ == msg.spec_bytes(),
        r.wf(),
{
    proof {
        lemma_encode_len_bound(msg@);
    }
    let message = msg.as_bytes_vec();
    BridgeError { message }
}


#[verifier::external_type_specification]
#[verifier::external_body]
pub struct ExAnyhowError(anyhow::Error);

/// Relies on `anyhow::Error`'s `Display` rendering: the bytes of the
/// human-readable message carried by a dynamically typed error.
#[verifier::external_body]
fn render_dyn_error(err: &anyhow::Error) -> (r: Vec<u8>) {
    format!("{}", err).into_bytes()
}

/// Sets the last error to the rendering of a dynamically typed error,
/// as a failing lifecycle hook built on such errors reports itself.
/// Whatever text the error renders to, a failure is pending afterwards;
/// a rendering too long for the retrieval protocol is cut to its first
/// `MAX_MESSAGE_BYTES` bytes.
pub fn update_last_error_dyn(slot: &mut ErrorSlot, err: anyhow::Error)
    requires
        old(slot).inv(),
    ensures
        final(slot).inv(),
        final(slot)@ is Some,
{
    let mut message = render_dyn_error(&err);
    if message.len() > MAX_MESSAGE_BYTES {
        message.truncate(MAX_MESSAGE_BYTES);
    }
    update_last_error(slot, BridgeError { message });
}

/// Copies a byte vector.
pub fn copy_bytes(v: &Vec<u8>) -> (r: Vec<u8>)
    ensures
        r@ == v@,
{
    let mut r: Vec<u8> = Vec::new();
    let mut i: usize = 0;
    while i < v.len()
        invariant
            i <= v@.len(),
            r@ == v@.take(i as int),
        decreases v@.len() - i,
    {
        r.push(v[i]);
        i = i + 1;
    }
    proof {
        assert(r@ =~= v@);
    }
    r
}

} // verus!
