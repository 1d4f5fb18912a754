//! A text buffer of fixed capacity, for building a line to display without
//! allocating.

use vstd::prelude::*;
use vstd::array::array_as_slice;
use vstd::slice::slice_subrange;
use vstd::string::StringSliceAdditionalSpecFns;
use vstd::utf8::{decode_utf8, valid_utf8};
use crate::text::utf8_text;

verus! {

/// `core::fmt::Error`, the error of the formatting traits. It holds nothing;
/// it is declared so that `write_str` can keep the result type that
/// `core::fmt::Write` asks for.
#[verifier::external_type_specification]
#[verifier::external_body]
pub struct ExFmtError(core::fmt::Error);

/// `N` bytes of storage and a cursor behind the last byte written. Writing
/// beyond the capacity is cut off, byte for byte.
#[derive(Debug)]
pub struct Formatter<const N: usize> {
    data: [u8; N],
    cursor: usize,
}

impl<const N: usize> View for Formatter<N> {
    type V = Seq<u8>;

    /// The bytes written since the buffer was made or cleared.
    closed spec fn view(&self) -> Seq<u8> {
        self.data@.take(self.cursor as int)
    }
}

/// How many bytes of a text of `wanted` bytes go into a buffer of `capacity`
/// that already holds `used`.
pub open spec fn accepted(capacity: nat, used: nat, wanted: nat) -> nat {
    if capacity - used < wanted {
        (capacity - used) as nat
    } else {
        wanted
    }
}

impl<const N: usize> Formatter<N> {
    #[verifier::type_invariant]
    spec fn cursor_in_bounds(&self) -> bool {
        self.cursor <= N
    }

    /// All `N` bytes of the storage: those written, then whatever was there
    /// before them.
    pub closed spec fn storage(&self) -> Seq<u8> {
        self.data@
    }

    /// An empty buffer over zeroed storage.
    pub fn new() -> (out: Self)
        ensures
            out@ == Seq::<u8>::empty(),
            out.storage() == Seq::new(N as nat, |i: int| 0u8),
            out.storage().len() == N,
    {
        let out = Formatter { data: [0u8; N], cursor: 0 };
        assert(out.data@ =~= Seq::new(N as nat, |i: int| 0u8));
        assert(out@ =~= Seq::<u8>::empty());
        out
    }

    /// Gives up the buffer for its storage.
    pub fn into_array(self) -> (out: [u8; N])
        ensures
            out@ == self.storage(),
            out@.take(self@.len() as int) == self@,
            self@.len() <= N,
    {
        proof {
            use_type_invariant(&self);
        }
        self.data
    }

    /// How many bytes are written. Never more than the capacity: the
    /// storage has `N` bytes and begins with those written.
    pub fn len(&self) -> (out: usize)
        ensures
            out == self@.len(),
            out <= N,
            self.storage().len() == N,
            self.storage().take(out as int) == self@,
    {
        proof {
            use_type_invariant(self);
        }
        self.cursor
    }

    /// Whether the bytes written are text.
    pub fn is_text(&self) -> (out: bool)
        ensures
            out == valid_utf8(self@),
    {
        proof {
            use_type_invariant(self);
        }
        let written = slice_subrange(array_as_slice(&self.data), 0, self.cursor);
        utf8_text(written).is_some()
    }

    /// The bytes written, as text. They have to be text: a write that was cut
    /// off inside a character leaves bytes that are none.
    pub fn as_str(&self) -> (out: &str)
        requires
            valid_utf8(self@),
        ensures
            out@ == decode_utf8(self@),
            out.spec_bytes() == self@,
    {
        proof {
            use_type_invariant(self);
        }
        let written = slice_subrange(array_as_slice(&self.data), 0, self.cursor);
        match utf8_text(written) {
            Some(text) => text,
            None => "",
        }
    }

    /// How many bytes the buffer holds at most.
    pub fn capacity(&self) -> (out: usize)
        ensures
            out == N,
    {
        N
    }

    /// Forgets what was written. The storage keeps its bytes.
    pub fn clear(&mut self)
        ensures
            final(self)@ == Seq::<u8>::empty(),
            final(self).storage() == old(self).storage(),
    {
        self.cursor = 0;
        assert(self@ =~= Seq::<u8>::empty());
    }

    /// Whether nothing is written.
    pub fn is_empty(&self) -> (out: bool)
        ensures
            out == (self@.len() == 0),
    {
        proof {
            use_type_invariant(self);
        }
        self.cursor == 0
    }

    /// Whether the buffer takes no more.
    pub fn full(&self) -> (out: bool)
        ensures
            out == (self@.len() == N),
    {
        proof {
            use_type_invariant(self);
        }
        N == self.cursor
    }
}

impl<const N: usize> core::fmt::Write for Formatter<N> {
    /// Writes the bytes of `s` behind what is written, as many of them as
    /// there is room for, and leaves the rest of the storage alone. Never
    /// fails: what does not fit is dropped.
    fn write_str(&mut self, s: &str) -> (out: Result<(), core::fmt::Error>)
        ensures
            out is Ok,
            old(self)@.len() <= final(self)@.len() <= N,
            final(self)@ == old(self)@ + s.spec_bytes().take(
                accepted(N as nat, old(self)@.len(), s.spec_bytes().len()) as int,
            ),
            final(self).storage().len() == N,
            final(self).storage() == final(self)@ + old(self).storage().skip(
                final(self)@.len() as int,
            ),
    {
        proof {
            use_type_invariant(&*self);
        }
        let bytes = s.as_bytes();
        let start = self.cursor;
        let rest_len = N - start;
        let len = if rest_len < bytes.len() {
            rest_len
        } else {
            bytes.len()
        };
        let mut data = self.data;
        let mut i: usize = 0;
        while i < len
            invariant
                i <= len,
                start + len <= N,
                len <= bytes.len(),
                data@.len() == N,
                data@.take(start as int) == old(self).storage().take(start as int),
                data@.skip(start + len) == old(self).storage().skip(start + len),
                forall|k: int| 0 <= k < i ==> data@[start + k] == bytes@[k],
            decreases len - i,
        {
            let ghost before = data@;
            data[start + i] = bytes[i];
            assert(data@.take(start as int) =~= before.take(start as int));
            assert(data@.skip(start + len) =~= before.skip(start + len));
            i += 1;
        }
        self.data = data;
        self.cursor = start + len;
        assert(self@ =~= old(self)@ + bytes@.take(len as int));
        assert(self.storage() =~= self@ + old(self).storage().skip(self@.len() as int));
        Ok(())
    }
}

} // verus!
