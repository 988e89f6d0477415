//! Wide (UTF-16) text: lengths, borrowed views, null separated lists, and the
//! codec between host strings and null terminated wide buffers.

use vstd::prelude::*;
use vstd::slice::{slice_subrange, slice_to_vec};

verus! {

// ---------------------------------------------------------------------------
// The UTF-16 model.

/// The UTF-16 code units of one character: one unit in the basic multilingual
/// plane, otherwise a high surrogate followed by a low surrogate.
pub open spec fn wide_of_char(c: char) -> Seq<u16> {
    let v = (c as u32) as int;
    if v < 0x10000 {
        seq![v as u16]
    } else {
        seq![(0xD800 + (v - 0x10000) / 0x400) as u16, (0xDC00 + (v - 0x10000) % 0x400) as u16]
    }
}

/// The UTF-16 encoding of a character sequence.
pub open spec fn wide_of(s: Seq<char>) -> Seq<u16>
    decreases s.len(),
{
    if s.len() == 0 {
        Seq::empty()
    } else {
        wide_of(s.drop_last()) + wide_of_char(s.last())
    }
}

/// Whether `v` is well-formed UTF-16, that is the encoding of some characters.
pub open spec fn is_wide_text(v: Seq<u16>) -> bool {
    exists|s: Seq<char>| wide_of(s) == v
}

/// `v` without one trailing null unit, if it ends with one.
pub open spec fn strip_nul(v: Seq<u16>) -> Seq<u16> {
    if v.len() > 0 && v.last() == 0 {
        v.drop_last()
    } else {
        v
    }
}

/// The units of one character: a single unit outside the surrogate range, or
/// a high surrogate then a low surrogate that together give its value back.
pub proof fn lemma_char_units(c: char)
    ensures
        (c as u32) < 0x10000 ==> {
            &&& wide_of_char(c).len() == 1
            &&& wide_of_char(c)[0] == c as u32
            &&& !(0xD800 <= wide_of_char(c)[0] <= 0xDFFF)
        },
        (c as u32) >= 0x10000 ==> {
            &&& wide_of_char(c).len() == 2
            &&& 0xD800 <= wide_of_char(c)[0] < 0xDC00
            &&& 0xDC00 <= wide_of_char(c)[1] <= 0xDFFF
            &&& c as u32 == 0x10000 + (wide_of_char(c)[0] - 0xD800) * 0x400 + (
            wide_of_char(c)[1] - 0xDC00)
        },
{
    vstd::utf8::char_is_scalar(c);
}

/// Distinct character sequences have distinct encodings.
pub proof fn lemma_wide_of_injective(s: Seq<char>, t: Seq<char>)
    requires
        wide_of(s) == wide_of(t),
    ensures
        s == t,
    decreases s.len(),
{
    if s.len() == 0 && t.len() == 0 {
        assert(s =~= t);
    } else if s.len() == 0 {
        lemma_char_units(t.last());
        assert(wide_of(t).len() > 0);
    } else if t.len() == 0 {
        lemma_char_units(s.last());
        assert(wide_of(s).len() > 0);
    } else {
        let (a, b) = (s.last(), t.last());
        let (wa, wb) = (wide_of_char(a), wide_of_char(b));
        let w = wide_of(s);
        lemma_char_units(a);
        lemma_char_units(b);
        assert(w == wide_of(s.drop_last()) + wa);
        assert(w == wide_of(t.drop_last()) + wb);
        assert(w.last() == wa.last());
        assert(w.last() == wb.last());
        assert(wa.len() == wb.len());
        let k = wa.len() as int;
        assert(w.subrange(w.len() - k, w.len() as int) =~= wa);
        assert(w.subrange(w.len() - k, w.len() as int) =~= wb);
        if k == 2 {
            assert(wa[0] == wb[0] && wa[1] == wb[1]);
        }
        assert(a as u32 == b as u32);
        vstd::utf8::char_u32_cast(a, a as u32);
        vstd::utf8::char_u32_cast(b, b as u32);
        assert(w.subrange(0, w.len() - k) =~= wide_of(s.drop_last()));
        assert(w.subrange(0, w.len() - k) =~= wide_of(t.drop_last()));
        lemma_wide_of_injective(s.drop_last(), t.drop_last());
        assert(s =~= s.drop_last().push(a));
        assert(t =~= t.drop_last().push(b));
    }
}

/// Round trip: a string encoded with its terminator, then viewed without the
/// terminator, is well-formed UTF-16 and decodes to that string alone.
pub proof fn lemma_wide_round_trip(s: Seq<char>, t: Seq<char>)
    requires
        wide_of(t) == strip_nul(wide_of(s).push(0)),
    ensures
        is_wide_text(strip_nul(wide_of(s).push(0))),
        t == s,
{
    assert(strip_nul(wide_of(s).push(0)) =~= wide_of(s));
    lemma_wide_of_injective(s, t);
}

/// Index of the first null unit of `v`, or its length where it holds none.
pub open spec fn first_nul(v: Seq<u16>) -> int
    decreases v.len(),
{
    if v.len() == 0 {
        0
    } else if v[0] == 0 {
        0
    } else {
        1 + first_nul(v.drop_first())
    }
}

/// The entries of a null separated list: each one ends at a null unit or at
/// the end of the buffer; an empty buffer holds none.
pub open spec fn nsv_entries(v: Seq<u16>) -> Seq<Seq<u16>>
    decreases v.len(),
{
    let i = first_nul(v);
    if v.len() == 0 {
        Seq::empty()
    } else if 0 <= i < v.len() {
        seq![v.subrange(0, i)] + nsv_entries(v.subrange(i + 1, v.len() as int))
    } else {
        seq![v]
    }
}

/// `first_nul` points at the first null unit, or past the end when there is none.
pub proof fn lemma_first_nul(v: Seq<u16>)
    ensures
        0 <= first_nul(v) <= v.len(),
        first_nul(v) < v.len() ==> v[first_nul(v)] == 0,
        forall|j: int| 0 <= j < first_nul(v) ==> v[j] != 0,
    decreases v.len(),
{
    if v.len() > 0 && v[0] != 0 {
        lemma_first_nul(v.drop_first());
        assert forall|j: int| 0 <= j < first_nul(v) implies v[j] != 0 by {
            if j > 0 {
                assert(v[j] == v.drop_first()[j - 1]);
            }
        }
    }
}

/// Relies on `String::from_utf16`: it succeeds exactly on well-formed UTF-16
/// and then holds the characters that the units encode.
#[verifier::external_body]
fn string_from_wide(units: &[u16]) -> (r: Result<String, ()>)
    ensures
        r is Ok <==> is_wide_text(units@),
        r is Ok ==> wide_of(r->Ok_0@) == units@,
{
    String::from_utf16(units).map_err(|_| ())
}

/// The UTF-16 units of `s` followed by a null terminator.
pub fn widen0(s: &str) -> (r: Vec<u16>)
    ensures
        r@ == wide_of(s@).push(0),
{
    let mut out: Vec<u16> = Vec::new();
    let ghost mut count: int = 0;
    for c in it: s.chars()
        invariant
            it.seq() == s@,
            count == it.index(),
            out@ == wide_of(s@.take(count)),
    {
        let ghost done = s@.take(count);
        proof {
            vstd::utf8::char_is_scalar(c);
        }
        let v = c as u32;
        if v < 0x10000 {
            out.push(v as u16);
        } else {
            let u = v - 0x10000;
            out.push((0xD800 + u / 0x400) as u16);
            out.push((0xDC00 + u % 0x400) as u16);
        }
        proof {
            let next = s@.take(count + 1);
            assert(next.drop_last() =~= done);
            count = count + 1;
        }
    }
    proof {
        assert(count == s@.len());
        assert(s@.take(count) =~= s@);
    }
    out.push(0);
    out
}

/// Removes one trailing null unit, if present.
pub fn strip0(units: &[u16]) -> (r: &[u16])
    ensures
        r@ == strip_nul(units@),
{
    let n = units.len();
    if n > 0 && units[n - 1] == 0 {
        slice_subrange(units, 0, n - 1)
    } else {
        units
    }
}

// ---------------------------------------------------------------------------
// Lengths.

/// Length of wide text, as a sizing query reports it: in bytes.
///
/// Several console functions report the size of a wide text buffer in bytes
/// although callers need it in `u16` units: this type makes the choice explicit.
#[derive(Clone, Copy, Debug, PartialEq, Eq, PartialOrd, Ord, Hash)]
pub struct TextLength(pub(crate) usize);

impl View for TextLength {
    type V = nat;

    closed spec fn view(&self) -> nat {
        self.0 as nat
    }
}

impl TextLength {
    /// A length of `bytes` bytes, as a sizing query reports it.
    pub fn from_bytes(bytes: usize) -> (r: TextLength)
        ensures
            r@ == bytes,
    {
        TextLength(bytes)
    }

    /// The length in bytes, as reported.
    pub fn bytes(&self) -> (r: usize)
        ensures
            r == self@,
    {
        self.0
    }

    /// The length in `u16` units, an odd trailing byte rounded up to a whole unit.
    pub fn wchars(&self) -> (r: usize)
        ensures
            r == (self@ + 1) / 2,
    {
        let n = self.0;
        assert((n & 1) == n % 2) by (bit_vector);
        (n / 2) + (n & 1)
    }
}

// ---------------------------------------------------------------------------
// Text views.

/// A borrowed view of wide text, without a trailing terminator.
#[derive(Clone, Copy, Debug, PartialEq, Eq, PartialOrd, Ord)]
pub struct TextRef<'a>(pub(crate) &'a [u16]);

impl<'a> View for TextRef<'a> {
    type V = Seq<u16>;

    closed spec fn view(&self) -> Seq<u16> {
        self.0@
    }
}

impl<'a> TextRef<'a> {
    /// A view of `units`, less one trailing null unit if there is one.
    pub fn from_wide0(units: &'a [u16]) -> (r: TextRef<'a>)
        ensures
            r@ == strip_nul(units@),
    {
        TextRef(strip0(units))
    }

    /// The code units of the text.
    pub fn as_wchars(self) -> (r: &'a [u16])
        ensures
            r@ == self@,
    {
        self.0
    }

    /// The text as a host string, or its units unchanged where they are not
    /// well-formed UTF-16.
    pub fn to_string(self) -> (r: Result<String, Vec<u16>>)
        ensures
            r is Ok <==> is_wide_text(self@),
            r is Ok ==> wide_of(r->Ok_0@) == self@,
            r is Err ==> r->Err_0@ == self@,
    {
        match string_from_wide(self.0) {
            Ok(s) => Ok(s),
            Err(()) => Err(slice_to_vec(self.0)),
        }
    }
}

/// A borrowed view of wide text holding null separated values.
///
/// [`next`](Self::next) takes the entries off the front one by one; once they
/// are all taken the view is empty and stays so.
#[derive(Clone, Copy, Debug)]
pub struct TextNsvRef<'a>(pub(crate) &'a [u16]);

impl<'a> View for TextNsvRef<'a> {
    type V = Seq<u16>;

    closed spec fn view(&self) -> Seq<u16> {
        self.0@
    }
}

impl<'a> TextNsvRef<'a> {
    /// A view of the null separated values in `units`.
    pub fn new(units: &'a [u16]) -> (r: TextNsvRef<'a>)
        ensures
            r@ == units@,
    {
        TextNsvRef(units)
    }

    /// The units that are left to decode.
    pub fn as_wchars(self) -> (r: &'a [u16])
        ensures
            r@ == self@,
    {
        self.0
    }

    /// Takes the next entry: the units up to the first null, or all that is
    /// left where no null remains; `None` once the view is empty.
    pub fn next(&mut self) -> (r: Option<TextRef<'a>>)
        ensures
            old(self)@.len() == 0 ==> r is None && final(self)@.len() == 0,
            old(self)@.len() > 0 ==> {
                &&& r is Some
                &&& r->Some_0@ == nsv_entries(old(self)@)[0]
                &&& nsv_entries(final(self)@) == nsv_entries(old(self)@).drop_first()
            },
            final(self)@.len() < old(self)@.len() || old(self)@.len() == 0,
    {
        let units = self.0;
        let n = units.len();
        if n == 0 {
            return None;
        }
        let mut i: usize = 0;
        while i < n && units[i] != 0
            invariant
                n == units@.len(),
                0 <= i <= n,
                forall|j: int| 0 <= j < i ==> units@[j] != 0,
            decreases n - i,
        {
            i = i + 1;
        }
        proof {
            lemma_first_nul(units@);
            if first_nul(units@) < i {
                assert(units@[first_nul(units@)] != 0);
            }
            if i < first_nul(units@) {
                assert(units@[i as int] == 0);
            }
            assert(i == first_nul(units@));
        }
        let entry = slice_subrange(units, 0, i);
        if i < n {
            self.0 = slice_subrange(units, i + 1, n);
        } else {
            self.0 = slice_subrange(units, n, n);
            assert(nsv_entries(self.0@) =~= Seq::<Seq<u16>>::empty());
        }
        assert(entry@ =~= nsv_entries(units@)[0]);
        Some(TextRef(entry))
    }

    /// All the entries that are left, in order; the view itself is not consumed.
    pub fn to_vec(self) -> (r: Vec<TextRef<'a>>)
        ensures
            r@.len() == nsv_entries(self@).len(),
            forall|k: int| 0 <= k < r@.len() ==> #[trigger] r@[k]@ == nsv_entries(self@)[k],
    {
        let mut rest = self;
        let mut out: Vec<TextRef<'a>> = Vec::new();
        while rest.0.len() > 0
            invariant
                nsv_entries(self@) == out@.map_values(|t: TextRef<'a>| t@) + nsv_entries(rest@),
            decreases rest@.len(),
        {
            let ghost before = rest@;
            let entry = rest.next();
            match entry {
                Some(t) => {
                    out.push(t);
                    assert(nsv_entries(before) =~= seq![t@] + nsv_entries(rest@));
                },
                None => {},
            }
            assert(nsv_entries(self@) =~= out@.map_values(|t: TextRef<'a>| t@) + nsv_entries(rest@));
        }
        assert(nsv_entries(rest@) =~= Seq::<Seq<u16>>::empty());
        assert(nsv_entries(self@) =~= out@.map_values(|t: TextRef<'a>| t@));
        out
    }
}

} // verus!
