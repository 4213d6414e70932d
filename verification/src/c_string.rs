//! Byte strings in the form that the storage engine reads: the content,
//! then one zero byte that ends it. The content itself holds no zero byte,
//! since the reader would stop there.

use crate::error::MetadataError;
use crate::text::fits_c_string;
use crate::text::from_utf8_lossy;
use crate::text::lemma_nul_byte_iff_nul_char;
use crate::text::text_of;
use vstd::prelude::*;
use vstd::slice::slice_subrange;
use vstd::utf8::encode_utf8;

verus! {

/// Whether `bytes` holds a zero byte anywhere.
pub open spec fn has_nul(bytes: Seq<u8>) -> bool {
    bytes.contains(0u8)
}

/// What a reader that stops at the first zero byte takes from `buf`: the
/// bytes before that byte, or all of `buf` where it has none.
pub open spec fn until_nul(buf: Seq<u8>) -> Seq<u8> {
    match buf.index_of_first(0u8) {
        Some(end) => buf.take(end),
        None => buf,
    }
}

proof fn lemma_push_keeps_free_of_nul(bytes: Seq<u8>, b: u8)
    requires
        !has_nul(bytes),
        b != 0u8,
    ensures
        !has_nul(bytes.push(b)),
{
    let longer = bytes.push(b);
    if has_nul(longer) {
        let i = choose|i: int| 0 <= i < longer.len() && longer[i] == 0u8;
        assert(bytes[i] == 0u8);
    }
}

/// `until_nul(buf)` is the one prefix of `buf` that holds no zero byte and
/// that either is all of `buf` or is followed by a zero byte.
pub proof fn lemma_until_nul_is_prefix(buf: Seq<u8>, end: int)
    requires
        0 <= end <= buf.len(),
        !has_nul(buf.take(end)),
        end < buf.len() ==> buf[end] == 0u8,
    ensures
        until_nul(buf) == buf.take(end),
{
    buf.index_of_first_ensures(0u8);
    match buf.index_of_first(0u8) {
        Some(first) => {
            if first < end {
                assert(buf.take(end)[first] == 0u8);
            }
        },
        None => {
            if end < buf.len() {
                assert(buf.contains(0u8));
            }
            assert(buf.take(end) =~= buf);
        },
    }
}

/// A string that was handed over with a zero byte at its end is read back
/// as it was, provided that it holds no zero byte itself.
pub proof fn lemma_c_string_round_trip(bytes: Seq<u8>)
    requires
        !has_nul(bytes),
    ensures
        until_nul(bytes) == bytes,
        until_nul(bytes.push(0u8)) == bytes,
{
    bytes.index_of_first_ensures(0u8);
    let buf = bytes.push(0u8);
    assert(buf.take(bytes.len() as int) =~= bytes);
    lemma_until_nul_is_prefix(buf, bytes.len() as int);
}

/// An owned byte string that a zero byte ends. Its view is the content: the
/// bytes before the final zero byte.
#[derive(Debug, PartialEq, Eq)]
pub struct NulTerminated {
    buf: Vec<u8>,
}

impl View for NulTerminated {
    type V = Seq<u8>;

    closed spec fn view(&self) -> Seq<u8> {
        self.buf@.drop_last()
    }
}

impl Clone for NulTerminated {
    fn clone(&self) -> (res: NulTerminated)
        ensures
            res@ == self@,
    {
        proof {
            use_type_invariant(self);
        }
        let buf = self.buf.clone();
        assert(buf@ =~= self.buf@);
        NulTerminated { buf }
    }
}

impl NulTerminated {
    #[verifier::type_invariant]
    spec fn well_formed(&self) -> bool {
        &&& self.buf@.len() >= 1
        &&& self.buf@.last() == 0u8
        &&& !has_nul(self.buf@.drop_last())
    }

    /// The string without content.
    pub fn empty() -> (res: NulTerminated)
        ensures
            res@ == Seq::<u8>::empty(),
    {
        let mut buf: Vec<u8> = Vec::new();
        buf.push(0u8);
        assert(buf@.drop_last() =~= Seq::<u8>::empty());
        NulTerminated { buf }
    }

    /// Puts `bytes` into the zero-ended form. Fails, without cutting
    /// anything off, where `bytes` holds a zero byte.
    pub fn from_bytes(bytes: &[u8]) -> (res: Result<NulTerminated, MetadataError>)
        ensures
            res is Ok <==> !has_nul(bytes@),
            res matches Ok(s) ==> s@ == bytes@,
            res matches Err(e) ==> e == MetadataError::InvalidArgument,
    {
        let mut buf: Vec<u8> = Vec::new();
        let mut i: usize = 0;
        while i < bytes.len()
            invariant
                i <= bytes@.len(),
                buf@ == bytes@.take(i as int),
                !has_nul(bytes@.take(i as int)),
            decreases bytes@.len() - i,
        {
            let b: u8 = bytes[i];
            if b == 0 {
                assert(bytes@[i as int] == 0u8);
                return Err(MetadataError::InvalidArgument);
            }
            buf.push(b);
            proof {
                assert(bytes@.take(i + 1) =~= bytes@.take(i as int).push(b));
                lemma_push_keeps_free_of_nul(bytes@.take(i as int), b);
            }
            i += 1;
        }
        assert(bytes@.take(i as int) =~= bytes@);
        buf.push(0u8);
        assert(buf@.drop_last() =~= bytes@);
        Ok(NulTerminated { buf })
    }

    /// Puts the UTF-8 bytes of `s` into the zero-ended form. Fails where one
    /// of those bytes is zero.
    pub fn new(s: &str) -> (res: Result<NulTerminated, MetadataError>)
        ensures
            res is Ok <==> fits_c_string(s@),
            res is Ok <==> !s@.contains('\0'),
            res matches Ok(c) ==> c@ == encode_utf8(s@),
            res matches Err(e) ==> e == MetadataError::InvalidArgument,
    {
        proof {
            lemma_nul_byte_iff_nul_char(s@);
        }
        NulTerminated::from_bytes(s.as_bytes())
    }

    /// Reads a zero-ended string out of `buf`, as the storage engine would:
    /// the content ends before the first zero byte, or with `buf`.
    pub fn from_bytes_until_nul(buf: &[u8]) -> (res: NulTerminated)
        ensures
            res@ == until_nul(buf@),
    {
        let mut out: Vec<u8> = Vec::new();
        let mut i: usize = 0;
        while i < buf.len() && buf[i] != 0
            invariant
                i <= buf@.len(),
                out@ == buf@.take(i as int),
                !has_nul(buf@.take(i as int)),
            decreases buf@.len() - i,
        {
            let b: u8 = buf[i];
            out.push(b);
            proof {
                assert(buf@.take(i + 1) =~= buf@.take(i as int).push(b));
                lemma_push_keeps_free_of_nul(buf@.take(i as int), b);
            }
            i += 1;
        }
        proof {
            lemma_until_nul_is_prefix(buf@, i as int);
        }
        out.push(0u8);
        assert(out@.drop_last() =~= buf@.take(i as int));
        NulTerminated { buf: out }
    }

    /// The content and the zero byte that ends it: what the storage engine
    /// is handed.
    pub fn as_bytes_with_nul(&self) -> (res: &[u8])
        ensures
            res@ == self@.push(0u8),
            !has_nul(self@),
    {
        proof {
            use_type_invariant(self);
            assert(self.buf@ =~= self.buf@.drop_last().push(0u8));
        }
        self.buf.as_slice()
    }

    /// The content, without the zero byte that ends it.
    pub fn as_bytes(&self) -> (res: &[u8])
        ensures
            res@ == self@,
            !has_nul(self@),
    {
        proof {
            use_type_invariant(self);
        }
        slice_subrange(self.buf.as_slice(), 0, self.buf.len() - 1)
    }

    /// The content as text. Content that is UTF-8 is decoded as it stands;
    /// in other content each malformed part is replaced.
    pub fn to_string_lossy(&self) -> (res: String)
        ensures
            res@ == text_of(self@),
    {
        from_utf8_lossy(self.as_bytes())
    }
}

} // verus!
