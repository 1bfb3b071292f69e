//! The shared state store: a single (version, payload) pair.
//!
//! The version counter starts at 0 and advances by exactly 1 on every
//! write, wrapping to 0 immediately after its maximum value. A write
//! replaces the payload and bumps the version in one step, so a snapshot
//! always pairs a payload with the version under which it was written.

use vstd::prelude::*;
use vstd::arithmetic::div_mod::{
    lemma_add_mod_noop, lemma_mod_bound, lemma_mod_self_0, lemma_small_mod,
};

verus! {

/// Mathematical model of the store: the version counter and the payload
/// as a sequence of characters.
#[verifier::ext_equal]
pub ghost struct StoreModel {
    pub version: u32,
    pub payload: Seq<char>,
}

/// The version counter after one write: one more, wrapping to 0
/// immediately after the maximum value.
pub open spec fn wrap_inc(v: u32) -> u32 {
    if v == u32::MAX {
        0
    } else {
        (v + 1) as u32
    }
}

/// The store model after one write of payload `p`.
pub open spec fn write_one(s: StoreModel, p: Seq<char>) -> StoreModel {
    StoreModel { version: wrap_inc(s.version), payload: p }
}

/// The store model after a whole sequence of writes, applied in order.
pub open spec fn apply_writes(s: StoreModel, ws: Seq<Seq<char>>) -> StoreModel
    decreases ws.len(),
{
    if ws.len() == 0 {
        s
    } else {
        write_one(apply_writes(s, ws.drop_last()), ws.last())
    }
}

/// The version counter advanced by `n` writes: addition modulo 2^32.
pub open spec fn wrap_add(v: u32, n: nat) -> u32 {
    ((v + n) % 0x1_0000_0000) as u32
}

/// The shared state: the current payload and its version.
pub struct StoreState {
    pub version: u32,
    pub payload: String,
}

impl View for StoreState {
    type V = StoreModel;

    open spec fn view(&self) -> StoreModel {
        StoreModel { version: self.version, payload: self.payload@ }
    }
}

impl StoreState {
    /// A fresh store: version 0 and an empty payload.
    pub fn new() -> (s: StoreState)
        ensures
            s@.version == 0,
            s@.payload == Seq::<char>::empty(),
    {
        StoreState { version: 0, payload: String::new() }
    }

    /// A consistent snapshot: both fields of the one current state, read
    /// as a pair, never one field of an older state and one of a newer.
    pub fn read(&self) -> (r: (u32, String))
        ensures
            r.0 == self@.version,
            r.1@ == self@.payload,
    {
        (self.version, self.payload.clone())
    }

    /// Replace the payload and bump the version in one step.
    pub fn write(&mut self, new_payload: String)
        ensures
            final(self)@ == write_one(old(self)@, new_payload@),
    {
        if self.version == u32::MAX {
            self.version = 0;
        } else {
            self.version = self.version + 1;
        }
        self.payload = new_payload;
    }
}

/// One more write advances the wrapped version sum by one.
proof fn lemma_wrap_inc_add(v: u32, n: nat)
    ensures
        wrap_inc(wrap_add(v, n)) == wrap_add(v, n + 1),
{
    let m: int = 0x1_0000_0000;
    let a: int = v + n;
    lemma_mod_bound(a, m);
    lemma_add_mod_noop(a, 1, m);
    lemma_small_mod(1nat, m as nat);
    if a % m == m - 1 {
        lemma_mod_self_0(m);
        assert((a + 1) % m == 0);
    } else {
        lemma_small_mod((a % m + 1) as nat, m as nat);
        assert((a + 1) % m == a % m + 1);
    }
}

/// Monotonicity: after any sequence of writes, the version equals the
/// starting version plus the number of writes, modulo wraparound, and
/// the payload equals the argument of the last write.
pub proof fn lemma_monotonicity(s: StoreModel, ws: Seq<Seq<char>>)
    ensures
        apply_writes(s, ws).version == wrap_add(s.version, ws.len()),
        ws.len() > 0 ==> apply_writes(s, ws).payload == ws.last(),
    decreases ws.len(),
{
    if ws.len() == 0 {
        lemma_small_mod(s.version as nat, 0x1_0000_0000nat);
    } else {
        lemma_monotonicity(s, ws.drop_last());
        lemma_wrap_inc_add(s.version, (ws.len() - 1) as nat);
    }
}

/// A write always changes the version, wraparound included: the
/// post-write pair is distinguishable from the pre-write pair by its
/// version alone, which is what makes polling a sound change detector.
pub proof fn lemma_write_changes_version(m: StoreModel, p: Seq<char>)
    ensures
        write_one(m, p).version != m.version,
{
}

/// Wraparound: a write at the maximum version yields version 0, not a
/// failure.
pub proof fn lemma_wraparound(s: StoreModel, p: Seq<char>)
    requires
        s.version == u32::MAX,
    ensures
        write_one(s, p).version == 0,
{
}

} // verus!
