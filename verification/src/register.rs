//! A register-style example peripheral.
//!
//! A `Register` is connected to exactly one port. Reading returns exactly
//! the last byte written (`0x00` before any write), writing stores the
//! byte, and resetting clears it. Any other port reads as `0x00` and
//! ignores writes: range validity is the implementation's own concern,
//! and this one tolerates stray ports.

use vstd::prelude::*;
use vstd::string::StringSliceAdditionalSpecFns;

use crate::errors::{BridgeError, lemma_encode_len_bound};
use crate::lifecycle::Peripheral;

verus! {

/// The only port count a `Register` accepts.
pub const REGISTER_PORTS: u8 = 1;

/// A one-port register: `read` observes the last written byte.
pub struct Register {
    pub value: u8,
}

/// The decimal rendering of `n` as ASCII digit bytes, most significant
/// digit first.
pub open spec fn decimal_digits(n: int) -> Seq<u8>
    decreases n,
{
    if n < 10 {
        seq![(48 + if n >= 0 {
            n
        } else {
            0
        }) as u8]
    } else {
        decimal_digits(n / 10).push((48 + n % 10) as u8)
    }
}

/// A byte value renders as one to three decimal digits.
pub proof fn lemma_decimal_digits_len(n: int)
    requires
        0 <= n < 256,
    ensures
        1 <= decimal_digits(n).len() <= 3,
{
    if n < 10 {
        assert(decimal_digits(n).len() == 1);
    } else if n < 100 {
        assert(decimal_digits(n / 10).len() == 1);
        assert(decimal_digits(n).len() == 2);
    } else {
        assert(10 <= n / 10 < 26);
        assert(decimal_digits(n / 10 / 10).len() == 1);
        assert(decimal_digits(n / 10).len() == 2);
        assert(decimal_digits(n).len() == 3);
    }
}

/// The decimal rendering of a byte value.
pub fn u8_decimal(n: u8) -> (r: Vec<u8>)
    ensures
        r@ == decimal_digits(n as int),
    decreases n,
{
    if n < 10 {
        let mut r: Vec<u8> = Vec::new();
        r.push(48 + n);
        proof {
            assert(r@ =~= decimal_digits(n as int));
        }
        r
    } else {
        let mut r = u8_decimal(n / 10);
        r.push(48 + n % 10);
        proof {
            assert(r@ =~= decimal_digits(n as int));
        }
        r
    }
}

/// The message of the error reporting an unsupported port count.
pub open spec fn ports_message_bytes(expected: u8, found: u8) -> Seq<u8> {
    ("invalid number of ports: expected `").spec_bytes() + decimal_digits(expected as int) + (
    "`, found `").spec_bytes() + decimal_digits(found as int) + ("`").spec_bytes()
}

/// Builds the error reporting that `init` expected one port count and was
/// handed another.
pub fn ports_error(expected: u8, found: u8) -> (r: BridgeError)
    ensures
        r@ == ports_message_bytes(expected, found),
        r.wf(),
{
    let mut m: Vec<u8> = ("invalid number of ports: expected `").as_bytes_vec();
    let mut piece = u8_decimal(expected);
    m.append(&mut piece);
    let mut piece = ("`, found `").as_bytes_vec();
    m.append(&mut piece);
    let mut piece = u8_decimal(found);
    m.append(&mut piece);
    let mut piece = ("`").as_bytes_vec();
    m.append(&mut piece);
    proof {
        reveal_strlit("invalid number of ports: expected `");
        reveal_strlit("`, found `");
        reveal_strlit("`");
        lemma_encode_len_bound(("invalid number of ports: expected `")@);
        lemma_encode_len_bound(("`, found `")@);
        lemma_encode_len_bound(("`")@);
        lemma_decimal_digits_len(expected as int);
        lemma_decimal_digits_len(found as int);
        assert(m@ =~= ports_message_bytes(expected, found));
    }
    BridgeError { message: m }
}

impl Peripheral for Register {
    open spec fn inv(&self) -> bool {
        true
    }

    open spec fn live_ports(&self) -> u8 {
        REGISTER_PORTS
    }

    open spec fn accepts(ports: u8) -> bool {
        ports == REGISTER_PORTS
    }

    open spec fn reject_message(ports: u8) -> Seq<u8> {
        ports_message_bytes(REGISTER_PORTS, ports)
    }

    open spec fn init_state(ports: u8) -> Register {
        Register { value: 0 }
    }

    open spec fn post_read(&self, port: u8) -> Register {
        *self
    }

    open spec fn read_value(&self, port: u8) -> u8 {
        if port == 0 {
            self.value
        } else {
            0
        }
    }

    open spec fn post_write(&self, port: u8, data: u8) -> Register {
        if port == 0 {
            Register { value: data }
        } else {
            *self
        }
    }

    proof fn lemma_init_state_wf(ports: u8) {
    }

    proof fn lemma_inv_accepts(&self) {
    }

    proof fn lemma_step_wf(&self, port: u8, data: u8) {
    }

    fn init(ports: u8) -> (r: Result<Self, BridgeError>) {
        if ports == REGISTER_PORTS {
            Ok(Register { value: 0 })
        } else {
            Err(ports_error(REGISTER_PORTS, ports))
        }
    }

    fn read(&mut self, port: u8) -> (r: u8) {
        if port == 0 {
            self.value
        } else {
            0
        }
    }

    fn write(&mut self, port: u8, data: u8) {
        if port == 0 {
            self.value = data;
        }
    }

    fn reset(&mut self) {
        self.value = 0;
    }
}

/// Round trip: writing `data` to the register's connected port and then
/// reading the same port observes exactly `data`.
pub proof fn lemma_write_then_read_roundtrip(s: Register, port: u8, data: u8)
    requires
        port < s.live_ports(),
    ensures
        s.post_write(port, data).read_value(port) == data,
{
}

} // verus!
