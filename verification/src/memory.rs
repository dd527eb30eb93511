//! The memory bus as the core sees it.

use vstd::prelude::*;

verus! {

/// Timing class of a memory cycle relative to the one before it.
#[derive(Debug, Copy, Clone, PartialEq, Eq, Structural)]
pub enum MemoryAccess {
    Sequential,
    NonSequential,
}

/// The bus that the core fetches instructions and transfers data through.
/// Nothing is promised of what a load returns: the core's contracts hold
/// whatever the bus hands back.
pub trait MemoryInterface {
    /// Reads the byte at `address`.
    fn load_8(&mut self, address: u32, access: MemoryAccess) -> u8;

    /// Reads the halfword at `address`.
    fn load_16(&mut self, address: u32, access: MemoryAccess) -> u16;

    /// Reads the word at `address`.
    fn load_32(&mut self, address: u32, access: MemoryAccess) -> u32;

    /// Writes the byte at `address`.
    fn store_8(&mut self, address: u32, value: u8, access: MemoryAccess);

    /// Writes the halfword at `address`.
    fn store_16(&mut self, address: u32, value: u16, access: MemoryAccess);

    /// Writes the word at `address`.
    fn store_32(&mut self, address: u32, value: u32, access: MemoryAccess);
}

/// One call of the bus: a load or a store of 1, 2 or 4 bytes, with the
/// address and timing class that the bus is handed, and the value that a
/// store hands over or a load brings back.
pub struct BusCall {
    /// Whether the call is a store.
    pub store: bool,
    /// The width of the access in bytes.
    pub size: u32,
    /// The address handed to the bus.
    pub address: u32,
    /// The value stored, or the value that the load returned.
    pub value: u32,
    /// The timing class handed to the bus.
    pub access: MemoryAccess,
}

/// The load of `size` bytes at `address` that returned `value`.
pub open spec fn bus_load(size: u32, address: u32, access: MemoryAccess, value: u32) -> BusCall {
    BusCall { store: false, size, address, value, access }
}

/// The store of the `size` low bytes of `value` at `address`.
pub open spec fn bus_store(size: u32, address: u32, value: u32, access: MemoryAccess) -> BusCall {
    BusCall { store: true, size, address, value, access }
}

/// The series of one call.
pub open spec fn one_call(call: BusCall) -> Seq<BusCall> {
    seq![call]
}

/// Whether a call is one that the bus behind `bus` takes and answers as
/// the call says: the method of the call's width was called on it with the
/// call's address, timing class and, for a store, value, and a load
/// returned the call's value.
pub open spec fn answers<I: MemoryInterface>(bus: &mut I, call: BusCall) -> bool {
    if call.store {
        if call.size == 1 {
            call.value <= 0xFF && call_ensures(
                I::store_8,
                (bus, call.address, call.value as u8, call.access),
                (),
            )
        } else if call.size == 2 {
            call.value <= 0xFFFF && call_ensures(
                I::store_16,
                (bus, call.address, call.value as u16, call.access),
                (),
            )
        } else {
            call.size == 4 && call_ensures(
                I::store_32,
                (bus, call.address, call.value, call.access),
                (),
            )
        }
    } else {
        if call.size == 1 {
            call.value <= 0xFF && call_ensures(
                I::load_8,
                (bus, call.address, call.access),
                call.value as u8,
            )
        } else if call.size == 2 {
            call.value <= 0xFFFF && call_ensures(
                I::load_16,
                (bus, call.address, call.access),
                call.value as u16,
            )
        } else {
            call.size == 4 && call_ensures(
                I::load_32,
                (bus, call.address, call.access),
                call.value,
            )
        }
    }
}

/// The bus as it stands before call `k` of a series: the bus at the start
/// for the first call, and what the call before left for every other.
pub open spec fn bus_before<I>(futures: Seq<I>, start: I, k: int) -> I {
    if k == 0 {
        start
    } else {
        futures[k - 1]
    }
}

/// Whether `calls` is the series of calls that took a bus from `start` to
/// `end`, no more and no fewer, in this order: call `k` was made through
/// the borrow `refs[k]` of the bus as the call before had left it, and the
/// last call left the bus as `end`. That each borrow ends in `futures[k]`
/// is said beside this predicate wherever it is used.
pub open spec fn traced<I: MemoryInterface>(
    refs: Seq<&mut I>,
    futures: Seq<I>,
    calls: Seq<BusCall>,
    start: I,
    end: I,
) -> bool {
    &&& refs.len() == calls.len()
    &&& futures.len() == calls.len()
    &&& end == bus_before(futures, start, calls.len() as int)
    &&& forall|k: int|
        0 <= k < calls.len() ==> mut_ref_current(#[trigger] refs[k]) == bus_before(
            futures,
            start,
            k,
        ) && answers(refs[k], calls[k])
}

/// A single call made through one borrow is a series of one.
pub proof fn lemma_traced_one<I: MemoryInterface>(bus: &mut I, call: BusCall, start: I, end: I)
    requires
        mut_ref_current(bus) == start,
        mut_ref_future(bus) == end,
        answers(bus, call),
    ensures
        traced(seq![bus], seq![end], seq![call], start, end),
        forall|k: int|
            0 <= k < seq![bus].len() ==> mut_ref_future(#[trigger] seq![bus][k]) == seq![end][k],
{
}

/// Two series, of which the second begins where the first ends, make one
/// series.
pub proof fn lemma_traced_append<I: MemoryInterface>(
    refs1: Seq<&mut I>,
    futures1: Seq<I>,
    calls1: Seq<BusCall>,
    refs2: Seq<&mut I>,
    futures2: Seq<I>,
    calls2: Seq<BusCall>,
    start: I,
    middle: I,
    end: I,
)
    requires
        traced(refs1, futures1, calls1, start, middle),
        traced(refs2, futures2, calls2, middle, end),
        forall|k: int| 0 <= k < refs1.len() ==> mut_ref_future(#[trigger] refs1[k]) == futures1[k],
        forall|k: int| 0 <= k < refs2.len() ==> mut_ref_future(#[trigger] refs2[k]) == futures2[k],
    ensures
        traced(refs1 + refs2, futures1 + futures2, calls1 + calls2, start, end),
        forall|k: int|
            0 <= k < (refs1 + refs2).len() ==> mut_ref_future(#[trigger] (refs1 + refs2)[k]) == (
            futures1 + futures2)[k],
{
    let refs = refs1 + refs2;
    let futures = futures1 + futures2;
    let calls = calls1 + calls2;
    assert forall|k: int| 0 <= k < calls.len() implies mut_ref_current(#[trigger] refs[k])
        == bus_before(futures, start, k) && answers(refs[k], calls[k]) by {
        if k < calls1.len() {
            assert(refs[k] == refs1[k]);
        } else {
            assert(refs[k] == refs2[k - calls1.len()]);
            assert(calls[k] == calls2[k - calls1.len()]);
        }
    }
    assert forall|k: int| 0 <= k < refs.len() implies mut_ref_future(#[trigger] refs[k])
        == futures[k] by {
        if k < refs1.len() {
            assert(refs[k] == refs1[k]);
        } else {
            assert(refs[k] == refs2[k - refs1.len()]);
        }
    }
}

/// Two series of calls made one after the other are one series: if some
/// borrows carried the first from `start` to `middle` and some carried the
/// second from `middle` to `end`, some carry both from `start` to `end`.
pub proof fn lemma_traced_joined<I: MemoryInterface>(
    calls1: Seq<BusCall>,
    calls2: Seq<BusCall>,
    start: I,
    middle: I,
    end: I,
)
    requires
        exists|refs: Seq<&mut I>, futures: Seq<I>|
            #[trigger] traced(refs, futures, calls1, start, middle) && (forall|k: int|
                0 <= k < refs.len() ==> mut_ref_future(#[trigger] refs[k]) == futures[k]),
        exists|refs: Seq<&mut I>, futures: Seq<I>|
            #[trigger] traced(refs, futures, calls2, middle, end) && (forall|k: int|
                0 <= k < refs.len() ==> mut_ref_future(#[trigger] refs[k]) == futures[k]),
    ensures
        exists|refs: Seq<&mut I>, futures: Seq<I>|
            #[trigger] traced(refs, futures, calls1 + calls2, start, end) && (forall|k: int|
                0 <= k < refs.len() ==> mut_ref_future(#[trigger] refs[k]) == futures[k]),
{
    let (refs1, futures1) = choose|refs: Seq<&mut I>, futures: Seq<I>|
        #[trigger] traced(refs, futures, calls1, start, middle) && (forall|k: int|
            0 <= k < refs.len() ==> mut_ref_future(#[trigger] refs[k]) == futures[k]);
    let (refs2, futures2) = choose|refs: Seq<&mut I>, futures: Seq<I>|
        #[trigger] traced(refs, futures, calls2, middle, end) && (forall|k: int|
            0 <= k < refs.len() ==> mut_ref_future(#[trigger] refs[k]) == futures[k]);
    lemma_traced_append(refs1, futures1, calls1, refs2, futures2, calls2, start, middle, end);
}

/// No call leaves the bus as it is.
pub proof fn lemma_traced_none<I: MemoryInterface>(bus: I)
    ensures
        traced(Seq::<&mut I>::empty(), Seq::<I>::empty(), Seq::<BusCall>::empty(), bus, bus),
{
}

} // verus!
