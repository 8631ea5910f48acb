//! The lifecycle contract a peripheral implementation provides.
//!
//! An implementation models its behaviour with spec functions (`inv`,
//! `init_state`, `post_read`, `read_value`, `post_write`, ...) and then
//! proves that its executable hooks follow that model. The bridge layer
//! relies only on this contract, so everything it guarantees to the host
//! holds for every implementation.

use vstd::prelude::*;

use crate::errors::BridgeError;

verus! {

/// A trait for implementing all available peripheral functionality.
pub trait Peripheral: Sized {
    /// Well-formedness of an instance's state.
    spec fn inv(&self) -> bool;

    /// The port count this instance was initialized with.
    spec fn live_ports(&self) -> u8;

    /// Whether `init` accepts `ports` as the number of connected ports.
    spec fn accepts(ports: u8) -> bool;

    /// The message of the error `init` reports when it rejects `ports`.
    spec fn reject_message(ports: u8) -> Seq<u8>;

    /// The state an instance holds immediately after `init(ports)`
    /// succeeds.
    spec fn init_state(ports: u8) -> Self;

    /// The state after a (possibly side-effecting) read of `port`.
    spec fn post_read(&self, port: u8) -> Self;

    /// The value observable on `port`.
    spec fn read_value(&self, port: u8) -> u8;

    /// The state after applying `data` to `port`.
    spec fn post_write(&self, port: u8, data: u8) -> Self;

    /// A fresh state is well formed and remembers its port count.
    proof fn lemma_init_state_wf(ports: u8)
        requires
            Self::accepts(ports),
        ensures
            Self::init_state(ports).inv(),
            Self::init_state(ports).live_ports() == ports,
    ;

    /// A well-formed instance carries a port count that `init` accepts,
    /// so `reset` can always return to the matching fresh state.
    proof fn lemma_inv_accepts(&self)
        requires
            self.inv(),
        ensures
            Self::accepts(self.live_ports()),
    ;

    /// Reads and writes preserve well-formedness and the port count.
    proof fn lemma_step_wf(&self, port: u8, data: u8)
        requires
            self.inv(),
        ensures
            self.post_read(port).inv(),
            self.post_read(port).live_ports() == self.live_ports(),
            self.post_write(port, data).inv(),
            self.post_write(port, data).live_ports() == self.live_ports(),
    ;

    /// Called when the peripheral is first loaded.
    ///
    /// `ports` is the number of ports this peripheral is connected to.
    /// An implementation with a fixed topology rejects unsupported counts
    /// here; only `init` may fail, every later hook is infallible.
    fn init(ports: u8) -> (r: Result<Self, BridgeError>)
        ensures
            Self::accepts(ports) ==> (r matches Ok(p) && p == Self::init_state(ports)),
            !Self::accepts(ports) ==> (r matches Err(e) && e.wf() && e@ == Self::reject_message(
                ports,
            )),
    ;

    /// Called when all connected ports have been dropped, before the
    /// instance is deallocated. Anything left hanging afterwards (e.g.
    /// threads that were not joined) crashes the host; by default there
    /// is nothing to release.
    fn drop(self) {
    }

    /// Called every time a connected port is read from. May mutate the
    /// instance, to model side-effecting reads.
    fn read(&mut self, port: u8) -> (r: u8)
        requires
            old(self).inv(),
        ensures
            *final(self) == old(self).post_read(port),
            r == old(self).read_value(port),
    ;

    /// Called every time a connected port is written to.
    fn write(&mut self, port: u8, data: u8)
        requires
            old(self).inv(),
        ensures
            *final(self) == old(self).post_write(port, data),
    ;

    /// Called whenever the CPU in the emulator is reset: restores the
    /// state the instance would have immediately after `init` succeeded.
    /// Must not fail and must not deallocate the instance.
    fn reset(&mut self)
        requires
            old(self).inv(),
        ensures
            *final(self) == Self::init_state(old(self).live_ports()),
    ;
}

/// The state of `s` after reading ports `0, 1, ..., k - 1` in order,
/// threading the state through each (possibly side-effecting) read.
pub open spec fn state_after_reads<P: Peripheral>(s: P, k: int) -> P
    decreases k,
{
    if k <= 0 {
        s
    } else {
        state_after_reads(s, k - 1).post_read((k - 1) as u8)
    }
}

/// The sequence of values observed by reading ports `0, 1, ..., n - 1` in
/// order.
pub open spec fn read_sequence<P: Peripheral>(s: P, n: int) -> Seq<u8> {
    Seq::new(if n >= 0 {
        n as nat
    } else {
        0
    }, |k: int| state_after_reads(s, k).read_value(k as u8))
}

/// Resetting an instance and then reading every port yields the same
/// sequence of values as reading every port immediately after a fresh
/// `init` with the same port count: `reset`'s postcondition pins the
/// post-reset state to the fresh state, and the read model is a function
/// of the state alone.
pub proof fn lemma_reset_then_read_matches_fresh_init<P: Peripheral>(
    after_reset: P,
    fresh: P,
    ports: u8,
)
    requires
        after_reset == P::init_state(ports),
        fresh == P::init_state(ports),
    ensures
        read_sequence(after_reset, ports as int) == read_sequence(fresh, ports as int),
{
}

} // verus!
