//! Ownership records for memory handed over by a foreign (C-style) allocator.
//!
//! A `Malloc<S>` stands for one chunk of foreign memory of shape `S` (an array
//! `[T]` or UTF-8 text `str`), given by its address and its length. The handle
//! is the chunk's sole owner: it is never copied, and releasing it consumes it,
//! so each chunk is released at most once, and the reserved address of an empty
//! array is never released at all.

use core::marker::PhantomData;
use vstd::prelude::*;
use vstd::utf8::*;

mod text;

pub use text::{longest_valid_prefix, TextEncodingError};
use text::check_utf8;

verus! {

/// The null address: no allocation.
pub const NULL_ADDR: usize = 0;

/// The reserved, non-null address that an empty array handle holds in place of
/// null. It is never read through and never handed to the deallocator.
pub const SENTINEL_ADDR: usize = 1;

/// A chunk of foreign-allocated memory of shape `S`, owned by this handle.
///
/// For `Malloc<[T]>` the length counts elements; for `Malloc<str>` it counts
/// the bytes of the text, without the terminating nul.
pub struct Malloc<S: ?Sized> {
    addr: usize,
    len: usize,
    shape: PhantomData<S>,
}

/// The address an array handle holds for a chunk that starts at `addr`:
/// the sentinel in place of null, `addr` itself otherwise.
pub open spec fn array_start(addr: usize) -> usize {
    if addr == NULL_ADDR {
        SENTINEL_ADDR
    } else {
        addr
    }
}

/// What releasing a handle at `addr` hands to the deallocator: nothing for
/// the sentinel, the address itself for a real allocation.
pub open spec fn release_of(addr: usize) -> Option<usize> {
    if addr == SENTINEL_ADDR {
        None
    } else {
        Some(addr)
    }
}

impl<S: ?Sized> Malloc<S> {
    /// The address the handle holds.
    pub closed spec fn spec_addr(&self) -> usize {
        self.addr
    }

    /// The length of the view the handle lends out.
    pub closed spec fn spec_len(&self) -> usize {
        self.len
    }

    /// A handle never holds the null address.
    pub open spec fn wf(&self) -> bool {
        self.spec_addr() != NULL_ADDR
    }

    /// The address the handle holds.
    pub fn addr(&self) -> (r: usize)
        ensures
            r == self.spec_addr(),
    {
        self.addr
    }

    /// The number of elements (array) or bytes (text) the view covers.
    pub fn len(&self) -> (r: usize)
        ensures
            r == self.spec_len(),
    {
        self.len
    }

    /// Whether the view is empty.
    pub fn is_empty(&self) -> (r: bool)
        ensures
            r == (self.spec_len() == 0),
    {
        self.len == 0
    }

    /// Gives the handle up and says which address, if any, must now be passed
    /// to the foreign deallocator: none for the sentinel, the held address
    /// otherwise. Taking the handle by value makes this happen once.
    pub fn release(self) -> (r: Option<usize>)
        ensures
            r == release_of(self.spec_addr()),
    {
        if self.addr == SENTINEL_ADDR {
            None
        } else {
            Some(self.addr)
        }
    }
}

impl<T: Copy> Malloc<[T]> {
    /// Takes ownership of an array of `len` elements at `addr`.
    ///
    /// A null address with length 0 gives an empty handle at the sentinel; a
    /// null address with a positive length gives `None`; any other address
    /// gives a handle over `len` elements starting there.
    pub fn from_array(addr: usize, len: usize) -> (r: Option<Malloc<[T]>>)
        ensures
            r is None <==> (addr == NULL_ADDR && len > 0),
            r matches Some(m) ==> {
                &&& m.wf()
                &&& m.spec_addr() == array_start(addr)
                &&& m.spec_len() == len
            },
    {
        if addr == NULL_ADDR {
            if len == 0 {
                Some(Malloc { addr: SENTINEL_ADDR, len: 0, shape: PhantomData })
            } else {
                None
            }
        } else {
            Some(Malloc { addr, len, shape: PhantomData })
        }
    }
}

impl Malloc<str> {
    /// Takes ownership of a nul-terminated text buffer at `addr` whose bytes
    /// before the terminator are `bytes`.
    ///
    /// Succeeds exactly when `bytes` is well-formed UTF-8; the handle then
    /// covers those bytes. Otherwise reports the offset of the first malformed
    /// sequence, and no handle is made: the buffer stays with the caller.
    pub fn from_c_str(addr: usize, bytes: &[u8]) -> (r: Result<Malloc<str>, TextEncodingError>)
        requires
            addr != NULL_ADDR,
        ensures
            r is Ok <==> valid_utf8(bytes@),
            r matches Ok(m) ==> {
                &&& m.wf()
                &&& m.spec_addr() == addr
                &&& m.spec_len() == bytes@.len()
            },
            r matches Err(e) ==> e.describes_failure_of(bytes@),
    {
        match check_utf8(bytes) {
            Ok(()) => Ok(Malloc { addr, len: bytes.len(), shape: PhantomData }),
            Err(e) => Err(e),
        }
    }
}

/// An empty array handle made from the null address holds the sentinel, and
/// releasing it hands nothing to the deallocator.
pub proof fn lemma_empty_array_not_released<T: Copy>(m: Malloc<[T]>)
    requires
        m.spec_addr() == array_start(NULL_ADDR),
    ensures
        release_of(m.spec_addr()) is None,
{
}

/// A handle over a real allocation at `p` (neither null nor the reserved
/// sentinel address) hands exactly `p` to the deallocator when released, and
/// since `release` consumes the handle, this happens once per handle.
pub proof fn lemma_real_allocation_released<S: ?Sized>(m: Malloc<S>, p: usize)
    requires
        p != NULL_ADDR,
        p != SENTINEL_ADDR,
        m.spec_addr() == p,
    ensures
        release_of(m.spec_addr()) == Some(p),
{
}

} // verus!
