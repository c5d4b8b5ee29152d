//! What a history of requests holds: its draws and its releases.

use vstd::prelude::*;
use crate::device::Call;

verus! {

/// Kinds of request that a history is searched for.
pub enum Kind {
    /// An indexed draw.
    Draw,
    /// The release of a shader, a program, a buffer or a vertex array.
    Release,
}

/// Whether a request is of a kind.
pub open spec fn is_of(call: Call, kind: Kind) -> bool {
    match kind {
        Kind::Draw => call is DrawElements,
        Kind::Release => call is DeleteShader || call is DeleteProgram || call is DeleteBuffer
            || call is DeleteVertexArray,
    }
}

/// The requests of a kind, in the order in which they were made.
pub open spec fn of_kind(calls: Seq<Call>, kind: Kind) -> Seq<Call>
    decreases calls.len(),
{
    if calls.len() == 0 {
        Seq::empty()
    } else if is_of(calls.last(), kind) {
        of_kind(calls.drop_last(), kind).push(calls.last())
    } else {
        of_kind(calls.drop_last(), kind)
    }
}

/// The indexed draws of a history.
pub open spec fn draws(calls: Seq<Call>) -> Seq<Call> {
    of_kind(calls, Kind::Draw)
}

/// The releases of a history.
pub open spec fn releases(calls: Seq<Call>) -> Seq<Call> {
    of_kind(calls, Kind::Release)
}

/// The requests of a kind in two histories, one after the other, are those
/// of the first and then those of the second.
pub proof fn lemma_of_kind_add(a: Seq<Call>, b: Seq<Call>, kind: Kind)
    ensures
        of_kind(a + b, kind) == of_kind(a, kind) + of_kind(b, kind),
    decreases b.len(),
{
    if b.len() > 0 {
        assert((a + b).drop_last() =~= a + b.drop_last());
        lemma_of_kind_add(a, b.drop_last(), kind);
    }
}

/// A history without a request of a kind has none of that kind.
pub proof fn lemma_of_kind_none(calls: Seq<Call>, kind: Kind)
    requires
        forall|i: int| 0 <= i < calls.len() ==> !is_of(#[trigger] calls[i], kind),
    ensures
        of_kind(calls, kind) == Seq::<Call>::empty(),
    decreases calls.len(),
{
    if calls.len() > 0 {
        lemma_of_kind_none(calls.drop_last(), kind);
    }
}

/// A history in which every request is of a kind is all of that kind.
pub proof fn lemma_of_kind_all(calls: Seq<Call>, kind: Kind)
    requires
        forall|i: int| 0 <= i < calls.len() ==> is_of(#[trigger] calls[i], kind),
    ensures
        of_kind(calls, kind) == calls,
    decreases calls.len(),
{
    if calls.len() > 0 {
        lemma_of_kind_all(calls.drop_last(), kind);
    }
}

/// A place on the device that holds one handle at a time.
pub enum Slot {
    /// The current vertex array.
    VertexArray,
    /// The current program.
    Program,
    /// The buffer bound to a target.
    Buffer(u32),
}

/// The handle that a request puts in a slot, if it puts one there. Zero is
/// the handle of nothing.
pub open spec fn binds(call: Call, slot: Slot) -> Option<u32> {
    match (call, slot) {
        (Call::BindVertexArray { array }, Slot::VertexArray) => Some(array),
        (Call::UseProgram { program }, Slot::Program) => Some(program),
        (Call::BindBuffer { target, buffer }, Slot::Buffer(of)) => if target == of {
            Some(buffer)
        } else {
            None
        },
        _ => None,
    }
}

/// The handle that a slot holds after a history: the one that was put there
/// last, and zero where none was.
pub open spec fn bound(calls: Seq<Call>, slot: Slot) -> u32
    decreases calls.len(),
{
    if calls.len() == 0 {
        0
    } else {
        match binds(calls.last(), slot) {
            Some(handle) => handle,
            None => bound(calls.drop_last(), slot),
        }
    }
}

/// Requests that put nothing in a slot leave in it what it held.
pub proof fn lemma_bound_kept(before: Seq<Call>, calls: Seq<Call>, slot: Slot)
    requires
        forall|i: int| 0 <= i < calls.len() ==> binds(#[trigger] calls[i], slot) is None,
    ensures
        bound(before + calls, slot) == bound(before, slot),
    decreases calls.len(),
{
    if calls.len() > 0 {
        assert((before + calls).drop_last() =~= before + calls.drop_last());
        lemma_bound_kept(before, calls.drop_last(), slot);
    }
}

/// After a request that puts a handle in a slot, and requests that put
/// nothing there, the slot holds that handle.
pub proof fn lemma_bound_set(before: Seq<Call>, call: Call, after: Seq<Call>, slot: Slot)
    requires
        binds(call, slot) is Some,
        forall|i: int| 0 <= i < after.len() ==> binds(#[trigger] after[i], slot) is None,
    ensures
        bound(before + seq![call] + after, slot) == binds(call, slot)->Some_0,
{
    lemma_bound_kept(before + seq![call], after, slot);
}

} // verus!
