//! A byte buffer of fixed capacity `N`, held in a `heapless::Vec`.
//!
//! The contents are tracked as a ghost sequence; the only operations that
//! touch the underlying `heapless::Vec` are the private trusted items below,
//! whose contracts restate what `heapless` 0.8 does to the vector.

use vstd::prelude::*;

verus! {

#[verifier::external_type_specification]
#[verifier::external_body]
#[verifier::reject_recursive_types(T)]
pub struct ExHeaplessVec<T, const N: usize>(heapless::Vec<T, N>);

/// A byte buffer of capacity `N`, stored inline.
pub struct ByteBuf<const N: usize> {
    buf: heapless::Vec<u8, N>,
    contents: Ghost<Seq<u8>>,
}

impl<const N: usize> View for ByteBuf<N> {
    type V = Seq<u8>;

    closed spec fn view(&self) -> Seq<u8> {
        self.contents@
    }
}

impl<const N: usize> ByteBuf<N> {
    /// The buffer never holds more than its capacity.
    #[verifier::type_invariant]
    closed spec fn within_capacity(&self) -> bool {
        self.contents@.len() <= N
    }

    /// `heapless::Vec::new`: an empty vector.
    #[verifier::external_body]
    fn raw_new() -> (b: Self)
        ensures
            b@ == Seq::<u8>::empty(),
    {
        ByteBuf { buf: heapless::Vec::new(), contents: Ghost(Seq::empty()) }
    }

    /// `heapless::Vec::push`: appends when there is room, else hands the
    /// byte back and leaves the vector unchanged.
    #[verifier::external_body]
    fn raw_push(&mut self, byte: u8) -> (r: Result<(), u8>)
        ensures
            r is Ok <==> old(self)@.len() < N,
            r is Ok ==> final(self)@ == old(self)@.push(byte),
            r is Err ==> r->Err_0 == byte && final(self)@ == old(self)@,
    {
        self.buf.push(byte)
    }

    /// `heapless::Vec::extend_from_slice`: appends all of `bytes` when they
    /// fit, else changes nothing and fails.
    #[verifier::external_body]
    fn raw_extend_from_slice(&mut self, bytes: &[u8]) -> (r: Result<(), ()>)
        ensures
            old(self)@.len() + bytes@.len() <= N ==> r is Ok && final(self)@ == old(self)@ + bytes@,
            old(self)@.len() + bytes@.len() > N ==> r is Err && final(self)@ == old(self)@,
    {
        self.buf.extend_from_slice(bytes)
    }

    /// `heapless::Vec::as_slice`: the contents as a slice.
    #[verifier::external_body]
    fn raw_as_slice(&self) -> (s: &[u8])
        ensures
            s@ == self@,
    {
        self.buf.as_slice()
    }

    /// An empty buffer.
    pub fn new() -> (b: Self)
        ensures
            b@ == Seq::<u8>::empty(),
    {
        Self::raw_new()
    }

    /// The capacity `N`.
    pub fn capacity(&self) -> (c: usize)
        ensures
            c == N,
    {
        N
    }

    /// The number of bytes held.
    pub fn len(&self) -> (n: usize)
        ensures
            n == self@.len(),
            n <= N,
    {
        proof {
            use_type_invariant(self);
        }
        self.raw_as_slice().len()
    }

    /// The bytes held.
    pub fn as_slice(&self) -> (s: &[u8])
        ensures
            s@ == self@,
    {
        self.raw_as_slice()
    }

    /// Appends `byte` if there is room; otherwise returns it in `Err` and
    /// leaves the buffer as it was.
    pub fn push(&mut self, byte: u8) -> (r: Result<(), u8>)
        ensures
            r is Ok <==> old(self)@.len() < N,
            r is Ok ==> final(self)@ == old(self)@.push(byte),
            r is Err ==> r->Err_0 == byte && final(self)@ == old(self)@,
    {
        self.raw_push(byte)
    }

    /// Appends all of `bytes` if they fit; otherwise fails and leaves the
    /// buffer as it was.
    pub fn extend_from_slice(&mut self, bytes: &[u8]) -> (r: Result<(), ()>)
        ensures
            old(self)@.len() + bytes@.len() <= N ==> r is Ok && final(self)@ == old(self)@ + bytes@,
            old(self)@.len() + bytes@.len() > N ==> r is Err && final(self)@ == old(self)@,
    {
        self.raw_extend_from_slice(bytes)
    }

    /// A buffer holding a copy of `bytes`, or `Err` if they do not fit.
    pub fn from_slice(bytes: &[u8]) -> (r: Result<Self, ()>)
        ensures
            bytes@.len() <= N ==> r is Ok && r->Ok_0@ == bytes@,
            bytes@.len() > N ==> r is Err,
    {
        let mut b = Self::new();
        match b.extend_from_slice(bytes) {
            Ok(()) => {
                assert(b@ =~= bytes@);
                Ok(b)
            },
            Err(()) => Err(()),
        }
    }
}

} // verus!
