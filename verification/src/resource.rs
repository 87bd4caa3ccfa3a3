use vstd::prelude::*;
use vstd::string::StringSliceAdditionalSpecFns;

use crate::kind::IoErrorKind;

verus! {

/// A sequential byte source.
///
/// The model separates the attempts a resource will answer with a transient
/// interruption from the first real (terminal) attempt:
/// `read_interrupts` counts the pending interruptions, `read_skip` is the
/// state after absorbing one of them, and `read_rel` relates the state,
/// the caller's buffer and the result across the terminal attempt.
/// An interrupted attempt must leave the caller's buffer untouched.
pub trait ReadResource: Sized {
    /// Validity of the resource state; every operation preserves it.
    spec fn read_inv(&self) -> bool;

    /// How many attempts, from the current state, will fail with the
    /// transient-interruption kind before the first terminal attempt.
    spec fn read_interrupts(&self) -> nat;

    /// The state after one interrupted attempt.
    spec fn read_skip(&self) -> Self;

    /// The meaning of a terminal (non-interrupted) read attempt: how the
    /// result and the new state and buffer follow from the old ones.
    spec fn read_rel(
        pre: Self,
        pre_buf: Seq<u8>,
        post: Self,
        post_buf: Seq<u8>,
        r: Result<usize, IoErrorKind>,
    ) -> bool;

    /// The meaning of the resource's own read-to-end operation.
    spec fn read_to_end_rel(
        pre: Self,
        pre_buf: Seq<u8>,
        post: Self,
        post_buf: Seq<u8>,
        r: Result<usize, IoErrorKind>,
    ) -> bool;

    /// The meaning of the resource's own read-exact operation.
    spec fn read_exact_rel(
        pre: Self,
        pre_buf: Seq<u8>,
        post: Self,
        post_buf: Seq<u8>,
        r: Result<(), IoErrorKind>,
    ) -> bool;

    /// The meaning of the resource's own read-to-string operation.
    spec fn read_to_string_rel(
        pre: Self,
        pre_text: Seq<char>,
        post: Self,
        post_text: Seq<char>,
        r: Result<usize, IoErrorKind>,
    ) -> bool;

    /// One read attempt. Fills a prefix of `buf` in place and returns how
    /// many bytes were placed, or fails.
    fn read_attempt(&mut self, buf: &mut Vec<u8>) -> (r: Result<usize, IoErrorKind>)
        requires
            old(self).read_inv(),
        ensures
            final(self).read_inv(),
            old(self).read_interrupts() > 0 ==> {
                &&& r == Err::<usize, IoErrorKind>(IoErrorKind::Interrupted)
                &&& *final(self) == old(self).read_skip()
                &&& final(self).read_interrupts() == old(self).read_interrupts() - 1
                &&& final(buf)@ == old(buf)@
            },
            old(self).read_interrupts() == 0 ==> {
                &&& r != Err::<usize, IoErrorKind>(IoErrorKind::Interrupted)
                &&& Self::read_rel(*old(self), old(buf)@, *final(self), final(buf)@, r)
            },
    ;

    /// The resource's own composite read-to-end operation, appending to `buf`.
    fn read_to_end(&mut self, buf: &mut Vec<u8>) -> (r: Result<usize, IoErrorKind>)
        requires
            old(self).read_inv(),
        ensures
            final(self).read_inv(),
            Self::read_to_end_rel(*old(self), old(buf)@, *final(self), final(buf)@, r),
    ;

    /// The resource's own composite read-exact operation, filling all of `buf`.
    fn read_exact(&mut self, buf: &mut Vec<u8>) -> (r: Result<(), IoErrorKind>)
        requires
            old(self).read_inv(),
        ensures
            final(self).read_inv(),
            Self::read_exact_rel(*old(self), old(buf)@, *final(self), final(buf)@, r),
    ;

    /// The resource's own composite read-to-string operation, appending text.
    fn read_to_string(&mut self, text: &mut String) -> (r: Result<usize, IoErrorKind>)
        requires
            old(self).read_inv(),
        ensures
            final(self).read_inv(),
            Self::read_to_string_rel(*old(self), old(text)@, *final(self), final(text)@, r),
    ;
}

/// A buffered byte source: it keeps a window of bytes read ahead of the
/// caller and refills it on demand. The refill step is the only primitive
/// that touches the underlying source and hence the only one that can be
/// interrupted; `fill_interrupts`, `fill_skip` and `fill_rel` model it the
/// way `ReadResource` models the read attempt.
pub trait BufResource: Sized {
    /// Validity of the resource state; every operation preserves it.
    spec fn buf_inv(&self) -> bool;

    /// The bytes currently buffered and not yet consumed.
    spec fn buffered_bytes(&self) -> Seq<u8>;

    /// How many refill attempts, from the current state, will fail with the
    /// transient-interruption kind before the first terminal attempt.
    spec fn fill_interrupts(&self) -> nat;

    /// The state after one interrupted refill attempt.
    spec fn fill_skip(&self) -> Self;

    /// The meaning of a terminal (non-interrupted) refill attempt.
    spec fn fill_rel(pre: Self, post: Self, r: Result<usize, IoErrorKind>) -> bool;

    /// The meaning of consuming `amt` buffered bytes.
    spec fn consume_rel(pre: Self, amt: nat, post: Self) -> bool;

    /// The meaning of the resource's own read-until operation.
    spec fn read_until_rel(
        pre: Self,
        delim: u8,
        pre_buf: Seq<u8>,
        post: Self,
        post_buf: Seq<u8>,
        r: Result<usize, IoErrorKind>,
    ) -> bool;

    /// The meaning of the resource's own read-line operation.
    spec fn read_line_rel(
        pre: Self,
        pre_text: Seq<char>,
        post: Self,
        post_text: Seq<char>,
        r: Result<usize, IoErrorKind>,
    ) -> bool;

    /// One refill attempt: make bytes available in the buffer if it is empty,
    /// returning how many bytes are buffered afterwards (zero at end of
    /// stream), or fail.
    fn fill_attempt(&mut self) -> (r: Result<usize, IoErrorKind>)
        requires
            old(self).buf_inv(),
        ensures
            final(self).buf_inv(),
            old(self).fill_interrupts() > 0 ==> {
                &&& r == Err::<usize, IoErrorKind>(IoErrorKind::Interrupted)
                &&& *final(self) == old(self).fill_skip()
                &&& final(self).fill_interrupts() == old(self).fill_interrupts() - 1
            },
            old(self).fill_interrupts() == 0 ==> {
                &&& r != Err::<usize, IoErrorKind>(IoErrorKind::Interrupted)
                &&& Self::fill_rel(*old(self), *final(self), r)
            },
    ;

    /// A copy of the bytes currently buffered and not yet consumed.
    fn buffered(&self) -> (v: Vec<u8>)
        requires
            self.buf_inv(),
        ensures
            v@ == self.buffered_bytes(),
    ;

    /// Mark `amt` buffered bytes as consumed; performs no input.
    fn consume(&mut self, amt: usize)
        requires
            old(self).buf_inv(),
        ensures
            final(self).buf_inv(),
            Self::consume_rel(*old(self), amt as nat, *final(self)),
    ;

    /// The resource's own composite read-until operation, appending to `buf`
    /// everything up to and including the first `delim`, or to end of stream.
    fn read_until(&mut self, delim: u8, buf: &mut Vec<u8>) -> (r: Result<usize, IoErrorKind>)
        requires
            old(self).buf_inv(),
        ensures
            final(self).buf_inv(),
            Self::read_until_rel(*old(self), delim, old(buf)@, *final(self), final(buf)@, r),
    ;

    /// The resource's own composite read-line operation, appending text.
    fn read_line(&mut self, text: &mut String) -> (r: Result<usize, IoErrorKind>)
        requires
            old(self).buf_inv(),
        ensures
            final(self).buf_inv(),
            Self::read_line_rel(*old(self), old(text)@, *final(self), final(text)@, r),
    ;
}

/// A byte sink.
///
/// `write_interrupts`, `write_skip` and `write_rel` model the single write
/// attempt exactly the way `ReadResource` models the read attempt.
pub trait WriteResource: Sized {
    /// Validity of the resource state; every operation preserves it.
    spec fn write_inv(&self) -> bool;

    /// How many attempts, from the current state, will fail with the
    /// transient-interruption kind before the first terminal attempt.
    spec fn write_interrupts(&self) -> nat;

    /// The state after one interrupted attempt.
    spec fn write_skip(&self) -> Self;

    /// The meaning of a terminal (non-interrupted) write attempt of `data`.
    spec fn write_rel(pre: Self, data: Seq<u8>, post: Self, r: Result<usize, IoErrorKind>) -> bool;

    /// The meaning of the resource's own flush operation.
    spec fn flush_rel(pre: Self, post: Self, r: Result<(), IoErrorKind>) -> bool;

    /// The meaning of the resource's own write-all operation.
    spec fn write_all_rel(pre: Self, data: Seq<u8>, post: Self, r: Result<(), IoErrorKind>) -> bool;

    /// The meaning of the resource's own formatted-text write, given the
    /// byte encoding of the text.
    spec fn write_fmt_rel(pre: Self, data: Seq<u8>, post: Self, r: Result<(), IoErrorKind>) -> bool;

    /// One write attempt: hand `data` to the sink and return how many bytes
    /// it accepted (possibly zero), or fail.
    fn write_attempt(&mut self, data: &[u8]) -> (r: Result<usize, IoErrorKind>)
        requires
            old(self).write_inv(),
        ensures
            final(self).write_inv(),
            old(self).write_interrupts() > 0 ==> {
                &&& r == Err::<usize, IoErrorKind>(IoErrorKind::Interrupted)
                &&& *final(self) == old(self).write_skip()
                &&& final(self).write_interrupts() == old(self).write_interrupts() - 1
            },
            old(self).write_interrupts() == 0 ==> {
                &&& r != Err::<usize, IoErrorKind>(IoErrorKind::Interrupted)
                &&& Self::write_rel(*old(self), data@, *final(self), r)
            },
    ;

    /// The resource's own flush operation.
    fn flush(&mut self) -> (r: Result<(), IoErrorKind>)
        requires
            old(self).write_inv(),
        ensures
            final(self).write_inv(),
            Self::flush_rel(*old(self), *final(self), r),
    ;

    /// The resource's own composite write-all operation.
    fn write_all(&mut self, data: &[u8]) -> (r: Result<(), IoErrorKind>)
        requires
            old(self).write_inv(),
        ensures
            final(self).write_inv(),
            Self::write_all_rel(*old(self), data@, *final(self), r),
    ;

    /// The resource's own write of already formatted text; the contract
    /// speaks of the byte encoding of `text`.
    fn write_fmt(&mut self, text: &str) -> (r: Result<(), IoErrorKind>)
        requires
            old(self).write_inv(),
        ensures
            final(self).write_inv(),
            Self::write_fmt_rel(*old(self), text.spec_bytes(), *final(self), r),
    ;
}

} // verus!
