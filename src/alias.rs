//! Console aliases: reading what an alias lookup or listing left in a buffer.
//!
//! Lookups report sizes in bytes although the buffers hold `u16` units. They
//! also report the size of a too-small buffer as if they had filled it, so
//! their outcome is judged from the last-error slot (see [`crate::error`]).

use vstd::prelude::*;
use vstd::slice::slice_subrange;
use crate::error::ERROR_SUCCESS;
use crate::fetch::{store_fill, store_last_error, store_returned};
use crate::text::{
    is_wide_text, lemma_wide_of_injective, strip_nul, wide_of, TextNsvRef, TextRef,
};

verus! {

/// The units of `buffer` that a call reporting `bytes` bytes wrote.
fn written<'t>(buffer: &'t [u16], bytes: u32) -> (r: &'t [u16])
    requires
        bytes / 2 <= buffer@.len(),
    ensures
        r@ == buffer@.take(bytes as int / 2),
{
    let r = slice_subrange(buffer, 0, (bytes / 2) as usize);
    assert(r@ =~= buffer@.take(bytes as int / 2));
    r
}

/// The text of an alias, from the buffer that a successful lookup filled and
/// the size in bytes that it reported: the units written, less their terminator.
pub fn alias_text<'t>(buffer: &'t [u16], bytes: u32) -> (r: TextRef<'t>)
    requires
        bytes / 2 <= buffer@.len(),
    ensures
        r@ == strip_nul(buffer@.take(bytes as int / 2)),
{
    TextRef::from_wide0(written(buffer, bytes))
}

/// The null separated values that a successful listing of aliases, or of the
/// executables that have aliases, wrote into `buffer`, reporting `bytes` bytes.
pub fn alias_values<'t>(buffer: &'t [u16], bytes: u32) -> (r: TextNsvRef<'t>)
    requires
        bytes / 2 <= buffer@.len(),
    ensures
        r@ == buffer@.take(bytes as int / 2),
{
    TextNsvRef::new(written(buffer, bytes))
}

/// A lookup into a buffer with room for the stored alias and its terminator
/// succeeds, and its text decodes to exactly the string that was stored.
pub proof fn lemma_lookup_returns_stored(stored: Seq<char>, buffer: Seq<u16>, decoded: Seq<char>)
    requires
        buffer.len() >= wide_of(stored).len() + 1,
        2 * buffer.len() <= u32::MAX,
        wide_of(decoded) == strip_nul(
            store_fill(buffer, wide_of(stored).push(0)).take(
                store_returned(buffer.len(), wide_of(stored).push(0)) as int / 2,
            ),
        ),
    ensures
        store_last_error(buffer.len(), wide_of(stored).push(0)) == ERROR_SUCCESS,
        is_wide_text(
            strip_nul(
                store_fill(buffer, wide_of(stored).push(0)).take(
                    store_returned(buffer.len(), wide_of(stored).push(0)) as int / 2,
                ),
            ),
        ),
        decoded == stored,
{
    let data = wide_of(stored).push(0);
    let filled = store_fill(buffer, data);
    assert(filled.take(store_returned(buffer.len(), data) as int / 2) =~= data);
    assert(strip_nul(data) =~= wide_of(stored));
    lemma_wide_of_injective(stored, decoded);
}

} // verus!
