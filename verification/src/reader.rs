//! The encoded output and its read cursor.

use vstd::prelude::*;

verus! {

/// Where the read cursor of an encoded output stands.
#[derive(Clone, Copy, Debug, PartialEq, Eq, Structural)]
pub enum ReaderState {
    /// Nothing was handed out yet.
    Fresh,
    /// Some bytes were handed out and some are left.
    Partial,
    /// Every byte was handed out.
    Exhausted,
}

/// The smaller of two numbers.
pub open spec fn at_most(n: nat, limit: nat) -> nat {
    if n <= limit {
        n
    } else {
        limit
    }
}

/// The abstract value of an encoded output: its bytes and the number of them that were
/// already handed out.
pub struct ReaderView {
    pub bytes: Seq<u8>,
    pub consumed: nat,
}

impl ReaderView {
    /// The cursor never stands behind the last byte.
    pub open spec fn wf(self) -> bool {
        self.consumed <= self.bytes.len()
    }

    /// The number of bytes that were not handed out yet.
    pub open spec fn remaining(self) -> nat {
        (self.bytes.len() - self.consumed) as nat
    }

    /// The number of bytes that a request for `n` bytes hands out: `n`, or all that are
    /// left if that is fewer.
    pub open spec fn granted(self, n: nat) -> nat {
        at_most(n, self.remaining())
    }

    /// The bytes that a request for `n` bytes hands out.
    pub open spec fn taken(self, n: nat) -> Seq<u8> {
        self.bytes.subrange(self.consumed as int, (self.consumed + self.granted(n)) as int)
    }

    /// The value after a request for `n` bytes.
    pub open spec fn take(self, n: nat) -> ReaderView {
        ReaderView { bytes: self.bytes, consumed: self.consumed + self.granted(n) }
    }

    /// The state that the cursor position stands for.
    pub open spec fn state(self) -> ReaderState {
        if self.consumed >= self.bytes.len() {
            ReaderState::Exhausted
        } else if self.consumed == 0 {
            ReaderState::Fresh
        } else {
            ReaderState::Partial
        }
    }

    /// The value after the requests were served one after the other.
    pub open spec fn take_all(self, requests: Seq<nat>) -> ReaderView
        decreases requests.len(),
    {
        if requests.len() == 0 {
            self
        } else {
            self.take(requests[0]).take_all(requests.drop_first())
        }
    }

    /// The bytes that the requests hand out one after the other, joined in that order.
    pub open spec fn taken_all(self, requests: Seq<nat>) -> Seq<u8>
        decreases requests.len(),
    {
        if requests.len() == 0 {
            Seq::empty()
        } else {
            self.taken(requests[0]) + self.take(requests[0]).taken_all(requests.drop_first())
        }
    }
}

/// The value of an output that was just produced from `bytes`.
pub open spec fn fresh(bytes: Seq<u8>) -> ReaderView {
    ReaderView { bytes, consumed: 0 }
}

/// The sum of the requested lengths.
pub open spec fn total_requested(requests: Seq<nat>) -> nat
    decreases requests.len(),
{
    if requests.len() == 0 {
        0
    } else {
        requests[0] + total_requested(requests.drop_first())
    }
}

/// A request never moves the cursor back, and never past the end.
pub proof fn lemma_take_moves_forward(v: ReaderView, n: nat)
    requires
        v.wf(),
    ensures
        v.take(n).wf(),
        v.take(n).consumed >= v.consumed,
        v.take(n).bytes == v.bytes,
        v.taken(n).len() == v.take(n).consumed - v.consumed,
        v.taken(n).len() <= n,
        v.take(n).state() == ReaderState::Fresh ==> v.state() == ReaderState::Fresh,
        v.state() == ReaderState::Exhausted ==> v.take(n).state() == ReaderState::Exhausted,
{
}

/// A request on an exhausted output hands out nothing and leaves the cursor where it is.
pub proof fn lemma_take_when_exhausted(v: ReaderView, n: nat)
    requires
        v.wf(),
        v.state() == ReaderState::Exhausted,
    ensures
        v.taken(n) == Seq::<u8>::empty(),
        v.take(n) == v,
{
    assert(v.taken(n) =~= Seq::<u8>::empty());
}

/// The whole byte sequence is the same after any run of requests, wherever the cursor
/// has come to stand.
pub proof fn lemma_bytes_survive_takes(v: ReaderView, requests: Seq<nat>)
    ensures
        v.take_all(requests).bytes == v.bytes,
    decreases requests.len(),
{
    if requests.len() > 0 {
        lemma_bytes_survive_takes(v.take(requests[0]), requests.drop_first());
    }
}

/// Over any run of requests the bytes handed out are, joined in order, exactly the next
/// bytes after the cursor: as many as were asked for in total, or all that were left if
/// that is fewer. The cursor moves by that number. Once as many bytes were asked for as
/// were left, nothing remains.
pub proof fn lemma_takes_hand_out_prefix(v: ReaderView, requests: Seq<nat>)
    requires
        v.wf(),
    ensures
        v.take_all(requests).wf(),
        v.taken_all(requests).len() == at_most(total_requested(requests), v.remaining()),
        v.taken_all(requests) == v.bytes.subrange(
            v.consumed as int,
            (v.consumed + at_most(total_requested(requests), v.remaining())) as int,
        ),
        v.take_all(requests).consumed == v.consumed + v.taken_all(requests).len(),
        total_requested(requests) >= v.remaining() ==> v.take_all(requests).remaining() == 0,
    decreases requests.len(),
{
    if requests.len() == 0 {
        assert(v.taken_all(requests) =~= v.bytes.subrange(v.consumed as int, v.consumed as int));
    } else {
        let next = v.take(requests[0]);
        let rest = requests.drop_first();
        lemma_takes_hand_out_prefix(next, rest);
        assert(v.taken_all(requests) =~= v.bytes.subrange(
            v.consumed as int,
            (v.consumed + at_most(total_requested(requests), v.remaining())) as int,
        ));
    }
}

/// Read from the start, any run of requests hands out as many bytes as were asked for in
/// total, or the whole output if that is fewer.
pub proof fn lemma_fresh_takes_total(bytes: Seq<u8>, requests: Seq<nat>)
    ensures
        fresh(bytes).taken_all(requests).len() == at_most(total_requested(requests), bytes.len()),
        total_requested(requests) >= bytes.len() ==> fresh(bytes).take_all(requests).remaining()
            == 0,
{
    lemma_takes_hand_out_prefix(fresh(bytes), requests);
}

/// A finished AVIF byte stream together with a cursor for reading it in chunks.
#[derive(Debug, PartialEq, Eq)]
pub struct Avif {
    data: Vec<u8>,
    consumed: usize,
}

impl View for Avif {
    type V = ReaderView;

    closed spec fn view(&self) -> ReaderView {
        ReaderView { bytes: self.data@, consumed: self.consumed as nat }
    }
}

impl Avif {
    #[verifier::type_invariant]
    spec fn cursor_in_bounds(self) -> bool {
        self.consumed <= self.data.len()
    }

    /// The whole byte stream, wherever the cursor stands.
    pub fn data(&self) -> (r: &[u8])
        ensures
            r@ == self@.bytes,
            self@.wf(),
    {
        proof {
            use_type_invariant(self);
        }
        self.data.as_slice()
    }

    /// Hands out the next `len` bytes, or all that are left if fewer remain, and moves
    /// the cursor past exactly the bytes handed out.
    pub fn take(&mut self, len: usize) -> (r: &[u8])
        ensures
            r@ == old(self)@.taken(len as nat),
            final(self)@ == old(self)@.take(len as nat),
            final(self)@.wf(),
            r@.len() == old(self)@.granted(len as nat),
            final(self)@.bytes == old(self)@.bytes,
            final(self)@.consumed == old(self)@.consumed + r@.len(),
    {
        proof {
            use_type_invariant(&*self);
        }
        let start: usize = self.consumed;
        let left: usize = self.data.len() - start;
        let count: usize = if len <= left { len } else { left };
        let end: usize = start + count;
        self.consumed = end;
        vstd::slice::slice_subrange(self.data.as_slice(), start, end)
    }

    /// The number of bytes that were not handed out yet.
    pub fn remaining(&self) -> (r: usize)
        ensures
            r == self@.remaining(),
            self@.wf(),
    {
        proof {
            use_type_invariant(self);
        }
        self.data.len() - self.consumed
    }

    /// Where the cursor stands.
    pub fn state(&self) -> (r: ReaderState)
        ensures
            r == self@.state(),
            self@.wf(),
    {
        proof {
            use_type_invariant(self);
        }
        if self.consumed >= self.data.len() {
            ReaderState::Exhausted
        } else if self.consumed == 0 {
            ReaderState::Fresh
        } else {
            ReaderState::Partial
        }
    }
}

impl vstd::std_specs::convert::FromSpecImpl<Vec<u8>> for Avif {
    open spec fn obeys_from_spec() -> bool {
        true
    }

    closed spec fn from_spec(data: Vec<u8>) -> Avif {
        Avif { data, consumed: 0 }
    }
}

impl From<Vec<u8>> for Avif {
    /// Wraps freshly encoded bytes; nothing is consumed yet.
    fn from(data: Vec<u8>) -> (r: Avif)
        ensures
            r@ == fresh(data@),
    {
        Avif { data, consumed: 0 }
    }
}

} // verus!
