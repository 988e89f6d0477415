//! The grow-and-retry protocol for text that the platform owns.
//!
//! The caller hands the platform a buffer and its size in bytes. The platform
//! either fills it, or reports through the last-error slot that it was too
//! small. That report is the one failure that is retried: the buffer grows by
//! at least one unit and the fetch is made again. Any other failure ends the
//! fetch with its code. There is no bound on the number of retries; each one
//! makes the buffer longer, so a store whose size stops growing is met in the
//! end, even when it grew between a sizing query and the fetch.

use vstd::prelude::*;
use crate::error::{ConsoleError, ERROR_INSUFFICIENT_BUFFER, ERROR_SUCCESS};

verus! {

/// The most bytes a buffer is announced as: the largest even `u32`.
pub const MAX_ANNOUNCED_BYTES: u32 = 0xFFFF_FFFE;

/// The size in bytes that a buffer of `units` code units is announced as:
/// twice its length, saturated at [`MAX_ANNOUNCED_BYTES`].
pub open spec fn announced_bytes(units: nat) -> u32 {
    if 2 * units <= MAX_ANNOUNCED_BYTES {
        (2 * units) as u32
    } else {
        MAX_ANNOUNCED_BYTES
    }
}

/// The size in bytes of a buffer of `units` code units, as the platform is told it.
pub fn buffer_bytes(units: usize) -> (r: u32)
    ensures
        r == announced_bytes(units as nat),
{
    if units <= 0x7FFF_FFFF {
        (2 * units) as u32
    } else {
        MAX_ANNOUNCED_BYTES
    }
}

/// A count of elements as the platform is told it: `len`, saturated at `u32::MAX`.
pub fn dword_len(len: usize) -> (r: u32)
    ensures
        len <= u32::MAX ==> r == len,
        len > u32::MAX ==> r == u32::MAX,
{
    if len <= 0xFFFF_FFFF {
        len as u32
    } else {
        u32::MAX
    }
}

/// Relies on `Vec::capacity`: never less than the length.
#[verifier::external_body]
fn capacity_of(v: &Vec<u16>) -> (r: usize)
    ensures
        r >= v@.len(),
{
    v.capacity()
}

/// Extends `v` with zeros up to the capacity it already has.
fn fill_capacity(v: &mut Vec<u16>)
    ensures
        final(v)@.len() >= old(v)@.len(),
        final(v)@.subrange(0, old(v)@.len() as int) == old(v)@,
        forall|i: int| old(v)@.len() <= i < final(v)@.len() ==> final(v)@[i] == 0,
{
    let cap = capacity_of(v);
    let ghost before = v@;
    v.resize(cap, 0);
    assert(v@.subrange(0, before.len() as int) =~= before);
}

/// A fetch in progress: the buffer for the next attempt.
pub struct TextFetch {
    buffer: Vec<u16>,
}

/// What one attempt of a fetch leads to.
pub enum FetchStep {
    /// The platform filled the buffer: the units it reported, terminator included.
    Done(Vec<u16>),
    /// The buffer was too small: it has grown, try again with it.
    Retry(TextFetch),
    /// The platform failed for another reason.
    Failed(ConsoleError),
}

impl View for TextFetch {
    type V = Seq<u16>;

    closed spec fn view(&self) -> Seq<u16> {
        self.buffer@
    }
}

/// The outcome of an attempt made with the buffer `before`, after which the
/// platform returned `returned` and its last-error slot read `last_error`.
pub open spec fn settles(before: Seq<u16>, returned: u32, last_error: u32, step: FetchStep) -> bool {
    if last_error == ERROR_SUCCESS {
        &&& step is Done
        &&& step->Done_0@ == before.take(returned as int / 2)
    } else if last_error == ERROR_INSUFFICIENT_BUFFER {
        &&& step is Retry
        &&& step->Retry_0@.len() > before.len()
    } else {
        step == FetchStep::Failed(ConsoleError::Os(last_error))
    }
}

impl TextFetch {
    /// A fetch whose first attempt has at least `units` units, all zero.
    pub fn new(units: usize) -> (r: TextFetch)
        ensures
            r@.len() >= units,
            forall|i: int| 0 <= i < r@.len() ==> r@[i] == 0,
    {
        let mut buffer: Vec<u16> = vec![0u16; units];
        let ghost before = buffer@;
        fill_capacity(&mut buffer);
        assert forall|i: int| 0 <= i < buffer@.len() implies buffer@[i] == 0 by {
            if i < before.len() {
                assert(buffer@.subrange(0, before.len() as int)[i] == buffer@[i]);
            }
        }
        TextFetch { buffer }
    }

    /// The buffer to hand to the platform for this attempt.
    pub fn buffer_mut(&mut self) -> (r: &mut Vec<u16>)
        ensures
            r@ == old(self)@,
            final(self)@ == final(r)@,
    {
        &mut self.buffer
    }

    /// The number of units of this attempt's buffer.
    pub fn units(&self) -> (r: usize)
        ensures
            r == self@.len(),
    {
        self.buffer.len()
    }

    /// The size of this attempt's buffer, in bytes, as the platform is told it.
    pub fn byte_len(&self) -> (r: u32)
        ensures
            r == announced_bytes(self@.len()),
    {
        buffer_bytes(self.buffer.len())
    }

    /// Decides the outcome of an attempt from what the platform returned and
    /// what its last-error slot, cleared before the call, read after it.
    pub fn settle(self, returned: u32, last_error: u32) -> (r: FetchStep)
        requires
            last_error == ERROR_SUCCESS ==> returned / 2 <= self@.len(),
        ensures
            settles(self@, returned, last_error, r),
    {
        let mut buffer = self.buffer;
        if last_error == ERROR_SUCCESS {
            buffer.truncate((returned / 2) as usize);
            assert(buffer@ =~= self@.take(returned as int / 2));
            FetchStep::Done(buffer)
        } else if last_error == ERROR_INSUFFICIENT_BUFFER {
            buffer.push(0);
            fill_capacity(&mut buffer);
            FetchStep::Retry(TextFetch { buffer })
        } else {
            FetchStep::Failed(ConsoleError::Os(last_error))
        }
    }
}

// ---------------------------------------------------------------------------
// A model store, to state what the protocol guarantees.

/// The caller's buffer after a store holding `data` (its terminator included)
/// answered a fetch into `buffer`: the data over its front where it fits,
/// untouched otherwise.
pub open spec fn store_fill(buffer: Seq<u16>, data: Seq<u16>) -> Seq<u16> {
    if data.len() <= buffer.len() {
        data + buffer.skip(data.len() as int)
    } else {
        buffer
    }
}

/// What such a store returns: the bytes it wrote, or, where the buffer is too
/// small, the size of that buffer as it was announced.
pub open spec fn store_returned(units: nat, data: Seq<u16>) -> u32 {
    if data.len() <= units {
        (2 * data.len()) as u32
    } else {
        announced_bytes(units)
    }
}

/// What such a store leaves in the last-error slot.
pub open spec fn store_last_error(units: nat, data: Seq<u16>) -> u32 {
    if data.len() <= units {
        ERROR_SUCCESS
    } else {
        ERROR_INSUFFICIENT_BUFFER
    }
}

/// One attempt against a store holding `data`: it never fails. A buffer too
/// small only leads to a retry with a longer buffer, and a buffer that holds
/// the data returns exactly the data, neither stale nor cut short.
pub proof fn lemma_fetch_from_store(before: Seq<u16>, data: Seq<u16>, step: FetchStep)
    requires
        2 * data.len() <= u32::MAX,
        settles(
            store_fill(before, data),
            store_returned(before.len(), data),
            store_last_error(before.len(), data),
            step,
        ),
    ensures
        !(step is Failed),
        data.len() <= before.len() ==> step is Done && step->Done_0@ == data,
        data.len() > before.len() ==> step is Retry && step->Retry_0@.len() > before.len(),
{
    if data.len() <= before.len() {
        assert(store_fill(before, data).take(data.len() as int) =~= data);
    }
}

/// Along a chain of retried attempts against the model store, each buffer is
/// longer than the one before, and each retried one was too small.
proof fn lemma_retry_chain(
    buffers: Seq<Seq<u16>>,
    stored: Seq<Seq<u16>>,
    steps: Seq<FetchStep>,
    i: int,
)
    requires
        0 <= i < buffers.len(),
        stored.len() == buffers.len(),
        steps.len() == buffers.len(),
        forall|j: int| 0 <= j < stored.len() ==> 2 * (#[trigger] stored[j]).len() <= u32::MAX,
        forall|j: int|
            0 <= j < steps.len() ==> settles(
                store_fill(buffers[j], stored[j]),
                store_returned(buffers[j].len(), stored[j]),
                store_last_error(buffers[j].len(), stored[j]),
                #[trigger] steps[j],
            ),
        forall|j: int|
            0 <= j < steps.len() - 1 ==> #[trigger] steps[j] is Retry && buffers[j + 1]
                == steps[j]->Retry_0@,
    ensures
        buffers[i].len() >= buffers[0].len() + i,
        forall|j: int| 0 <= j < i ==> #[trigger] buffers[j].len() < stored[j].len(),
    decreases i,
{
    if i > 0 {
        lemma_retry_chain(buffers, stored, steps, i - 1);
        assert(steps[i - 1] is Retry);
        lemma_fetch_from_store(buffers[i - 1], stored[i - 1], steps[i - 1]);
    }
}

/// Growth race: the store may need more room at each attempt than at the one
/// before, but while it never needs more than `bound` units, a fetch made of
/// consecutive attempts, each retried after the one before, retries at most
/// `bound - buffers[0].len()` times, and an attempt whose buffer holds the data
/// stored at that time returns exactly that data.
pub proof fn lemma_growth_race(
    buffers: Seq<Seq<u16>>,
    stored: Seq<Seq<u16>>,
    steps: Seq<FetchStep>,
    bound: nat,
)
    requires
        buffers.len() > 0,
        stored.len() == buffers.len(),
        steps.len() == buffers.len(),
        2 * bound <= u32::MAX,
        forall|i: int| 0 <= i < stored.len() ==> #[trigger] stored[i].len() <= bound,
        forall|i: int|
            0 <= i < steps.len() ==> settles(
                store_fill(buffers[i], stored[i]),
                store_returned(buffers[i].len(), stored[i]),
                store_last_error(buffers[i].len(), stored[i]),
                #[trigger] steps[i],
            ),
        forall|i: int|
            0 <= i < steps.len() - 1 ==> #[trigger] steps[i] is Retry && buffers[i + 1]
                == steps[i]->Retry_0@,
    ensures
        buffers.len() - 1 <= if bound > buffers[0].len() {
            bound - buffers[0].len()
        } else {
            0
        },
        buffers.last().len() >= stored.last().len() ==> steps.last() is Done
            && steps.last()->Done_0@ == stored.last(),
{
    let n = buffers.len() as int;
    lemma_retry_chain(buffers, stored, steps, n - 1);
    if n >= 2 {
        lemma_retry_chain(buffers, stored, steps, n - 2);
        assert(buffers[n - 2].len() < stored[n - 2].len());
        assert(stored[n - 2].len() <= bound);
    }
    lemma_fetch_from_store(buffers[n - 1], stored[n - 1], steps[n - 1]);
}

} // verus!
