use vstd::prelude::*;
use vstd::string::StringSliceAdditionalSpecFns;

use crate::kind::IoErrorKind;
use crate::resource::{BufResource, ReadResource, WriteResource};

verus! {

/// The state of a read resource once its pending transient interruptions
/// have been absorbed: `read_skip` applied `k` times.
pub open spec fn read_settled<T: ReadResource>(s: T, k: nat) -> T
    decreases k,
{
    if k == 0 {
        s
    } else {
        read_settled(s.read_skip(), (k - 1) as nat)
    }
}

/// The state of a buffered resource once its pending transient interruptions
/// have been absorbed: `fill_skip` applied `k` times.
pub open spec fn fill_settled<T: BufResource>(s: T, k: nat) -> T
    decreases k,
{
    if k == 0 {
        s
    } else {
        fill_settled(s.fill_skip(), (k - 1) as nat)
    }
}

/// The state of a write resource once its pending transient interruptions
/// have been absorbed: `write_skip` applied `k` times.
pub open spec fn write_settled<T: WriteResource>(s: T, k: nat) -> T
    decreases k,
{
    if k == 0 {
        s
    } else {
        write_settled(s.write_skip(), (k - 1) as nat)
    }
}

/// Wrapper around readers, buffered readers and writers that retries the
/// primitive operation of each capability whenever the underlying resource
/// reports a transient interruption, and forwards every other operation to
/// the underlying resource once, unchanged.
///
/// It holds nothing but the wrapped resource, so reclaiming the resource
/// with [`Retry::into_inner`] hands it back exactly as the retried
/// operations left it.
#[derive(Clone, Debug)]
pub struct Retry<T> {
    inner: T,
}

impl<T> Retry<T> {
    /// Wraps a value.
    pub fn new(inner: T) -> (r: Self)
        ensures
            r.resource() == inner,
    {
        Retry { inner }
    }

    /// Returns the inner value, unchanged.
    pub fn into_inner(self) -> (r: T)
        ensures
            r == self.resource(),
    {
        self.inner
    }

    /// The wrapped resource, as the contracts speak of it.
    pub closed spec fn resource(&self) -> T {
        self.inner
    }
}

impl<T: ReadResource> Retry<T> {
    /// Reads into a prefix of `buf`, retrying while the underlying attempt
    /// reports a transient interruption.
    ///
    /// The result and the final state are exactly those of the first
    /// non-interrupted attempt, taken from the settled state of the
    /// resource, and the interrupted attempts leave `buf` untouched: the
    /// terminal attempt acts on the buffer exactly as the caller passed it.
    #[verifier::loop_isolation(false)]
    pub fn read(&mut self, buf: &mut Vec<u8>) -> (r: Result<usize, IoErrorKind>)
        requires
            old(self).resource().read_inv(),
        ensures
            final(self).resource().read_inv(),
            r != Err::<usize, IoErrorKind>(IoErrorKind::Interrupted),
            T::read_rel(
                read_settled(old(self).resource(), old(self).resource().read_interrupts()),
                old(buf)@,
                final(self).resource(),
                final(buf)@,
                r,
            ),
    {
        let ghost settled = read_settled(self.inner, self.inner.read_interrupts());
        let ghost buf0 = buf@;
        loop
            invariant
                self.inner.read_inv(),
                read_settled(self.inner, self.inner.read_interrupts()) == settled,
                buf@ == buf0,
            decreases self.inner.read_interrupts(),
        {
            let ghost pre = self.inner;
            let r = self.inner.read_attempt(buf);
            match r {
                Err(IoErrorKind::Interrupted) => {
                    proof {
                        assert(pre.read_interrupts() > 0);
                        assert(read_settled(pre, pre.read_interrupts())
                            == read_settled(pre.read_skip(), (pre.read_interrupts() - 1) as nat));
                    }
                },
                _ => {
                    proof {
                        assert(pre.read_interrupts() == 0);
                        assert(read_settled(pre, 0) == pre);
                    }
                    return r;
                },
            }
        }
    }

    /// Forwards the resource's own read-to-end operation, once, unchanged.
    pub fn read_to_end(&mut self, buf: &mut Vec<u8>) -> (r: Result<usize, IoErrorKind>)
        requires
            old(self).resource().read_inv(),
        ensures
            final(self).resource().read_inv(),
            T::read_to_end_rel(old(self).resource(), old(buf)@, final(self).resource(), final(buf)@, r),
    {
        self.inner.read_to_end(buf)
    }

    /// Forwards the resource's own read-exact operation, once, unchanged.
    pub fn read_exact(&mut self, buf: &mut Vec<u8>) -> (r: Result<(), IoErrorKind>)
        requires
            old(self).resource().read_inv(),
        ensures
            final(self).resource().read_inv(),
            T::read_exact_rel(old(self).resource(), old(buf)@, final(self).resource(), final(buf)@, r),
    {
        self.inner.read_exact(buf)
    }

    /// Forwards the resource's own read-to-string operation, once, unchanged.
    pub fn read_to_string(&mut self, text: &mut String) -> (r: Result<usize, IoErrorKind>)
        requires
            old(self).resource().read_inv(),
        ensures
            final(self).resource().read_inv(),
            T::read_to_string_rel(old(self).resource(), old(text)@, final(self).resource(), final(text)@, r),
    {
        self.inner.read_to_string(text)
    }
}

impl<T: BufResource> Retry<T> {
    /// Refills the buffer if it is empty, retrying while the underlying
    /// refill reports a transient interruption, and returns the settled
    /// buffered bytes.
    ///
    /// On success the returned bytes are exactly the buffered view of the
    /// final state, which the first non-interrupted refill attempt produced
    /// from the settled state of the resource.
    #[verifier::loop_isolation(false)]
    pub fn fill_buf(&mut self) -> (r: Result<Vec<u8>, IoErrorKind>)
        requires
            old(self).resource().buf_inv(),
        ensures
            final(self).resource().buf_inv(),
            r matches Ok(v) ==> v@ == final(self).resource().buffered_bytes(),
            r is Ok ==> exists|n: usize|
                T::fill_rel(
                    fill_settled(old(self).resource(), old(self).resource().fill_interrupts()),
                    final(self).resource(),
                    Ok(n),
                ),
            r matches Err(k) ==> {
                &&& k != IoErrorKind::Interrupted
                &&& T::fill_rel(
                    fill_settled(old(self).resource(), old(self).resource().fill_interrupts()),
                    final(self).resource(),
                    Err(k),
                )
            },
    {
        let ghost settled = fill_settled(self.inner, self.inner.fill_interrupts());
        loop
            invariant
                self.inner.buf_inv(),
                fill_settled(self.inner, self.inner.fill_interrupts()) == settled,
            decreases self.inner.fill_interrupts(),
        {
            let ghost pre = self.inner;
            let r = self.inner.fill_attempt();
            match r {
                Err(IoErrorKind::Interrupted) => {
                    proof {
                        assert(pre.fill_interrupts() > 0);
                        assert(fill_settled(pre, pre.fill_interrupts())
                            == fill_settled(pre.fill_skip(), (pre.fill_interrupts() - 1) as nat));
                    }
                },
                Err(k) => {
                    proof {
                        assert(pre.fill_interrupts() == 0);
                        assert(fill_settled(pre, 0) == pre);
                    }
                    return Err(k);
                },
                Ok(n) => {
                    proof {
                        assert(pre.fill_interrupts() == 0);
                        assert(fill_settled(pre, 0) == pre);
                        assert(T::fill_rel(settled, self.inner, Ok(n)));
                    }
                    return Ok(self.inner.buffered());
                },
            }
        }
    }

    /// Forwards the consume operation, once, unchanged; it performs no
    /// input, so there is nothing to retry.
    pub fn consume(&mut self, amt: usize)
        requires
            old(self).resource().buf_inv(),
        ensures
            final(self).resource().buf_inv(),
            T::consume_rel(old(self).resource(), amt as nat, final(self).resource()),
    {
        self.inner.consume(amt)
    }

    /// Forwards the resource's own read-until operation, once, unchanged.
    pub fn read_until(&mut self, delim: u8, buf: &mut Vec<u8>) -> (r: Result<usize, IoErrorKind>)
        requires
            old(self).resource().buf_inv(),
        ensures
            final(self).resource().buf_inv(),
            T::read_until_rel(old(self).resource(), delim, old(buf)@, final(self).resource(), final(buf)@, r),
    {
        self.inner.read_until(delim, buf)
    }

    /// Forwards the resource's own read-line operation, once, unchanged.
    pub fn read_line(&mut self, text: &mut String) -> (r: Result<usize, IoErrorKind>)
        requires
            old(self).resource().buf_inv(),
        ensures
            final(self).resource().buf_inv(),
            T::read_line_rel(old(self).resource(), old(text)@, final(self).resource(), final(text)@, r),
    {
        self.inner.read_line(text)
    }
}

impl<T: WriteResource> Retry<T> {
    /// Writes `data`, retrying while the underlying attempt reports a
    /// transient interruption.
    ///
    /// The result and the final state are exactly those of the first
    /// non-interrupted attempt, taken from the settled state of the
    /// resource.
    #[verifier::loop_isolation(false)]
    pub fn write(&mut self, data: &[u8]) -> (r: Result<usize, IoErrorKind>)
        requires
            old(self).resource().write_inv(),
        ensures
            final(self).resource().write_inv(),
            r != Err::<usize, IoErrorKind>(IoErrorKind::Interrupted),
            T::write_rel(
                write_settled(old(self).resource(), old(self).resource().write_interrupts()),
                data@,
                final(self).resource(),
                r,
            ),
    {
        let ghost settled = write_settled(self.inner, self.inner.write_interrupts());
        loop
            invariant
                self.inner.write_inv(),
                write_settled(self.inner, self.inner.write_interrupts()) == settled,
            decreases self.inner.write_interrupts(),
        {
            let ghost pre = self.inner;
            let r = self.inner.write_attempt(data);
            match r {
                Err(IoErrorKind::Interrupted) => {
                    proof {
                        assert(pre.write_interrupts() > 0);
                        assert(write_settled(pre, pre.write_interrupts())
                            == write_settled(pre.write_skip(), (pre.write_interrupts() - 1) as nat));
                    }
                },
                _ => {
                    proof {
                        assert(pre.write_interrupts() == 0);
                        assert(write_settled(pre, 0) == pre);
                    }
                    return r;
                },
            }
        }
    }

    /// Forwards the resource's own flush operation, once, unchanged.
    pub fn flush(&mut self) -> (r: Result<(), IoErrorKind>)
        requires
            old(self).resource().write_inv(),
        ensures
            final(self).resource().write_inv(),
            T::flush_rel(old(self).resource(), final(self).resource(), r),
    {
        self.inner.flush()
    }

    /// Forwards the resource's own write-all operation, once, unchanged.
    pub fn write_all(&mut self, data: &[u8]) -> (r: Result<(), IoErrorKind>)
        requires
            old(self).resource().write_inv(),
        ensures
            final(self).resource().write_inv(),
            T::write_all_rel(old(self).resource(), data@, final(self).resource(), r),
    {
        self.inner.write_all(data)
    }

    /// Forwards the resource's own write of already formatted text, once,
    /// unchanged.
    pub fn write_fmt(&mut self, text: &str) -> (r: Result<(), IoErrorKind>)
        requires
            old(self).resource().write_inv(),
        ensures
            final(self).resource().write_inv(),
            T::write_fmt_rel(old(self).resource(), text.spec_bytes(), final(self).resource(), r),
    {
        self.inner.write_fmt(text)
    }
}

} // verus!
