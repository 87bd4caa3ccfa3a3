use vstd::prelude::*;
use vstd::string::StringSliceAdditionalSpecFns;

use crate::kind::IoErrorKind;
use crate::resource::WriteResource;
use crate::script::{interrupts_from, next_of, Op};

verus! {

/// An in-memory byte sink whose primitive attempts are driven by a script:
/// each write attempt first consults the next script entry, failing or going
/// ahead as it says; once the script is exhausted every attempt goes ahead.
/// A plain attempt accepts the whole of the given data.
///
/// Flush and the composite operations (write all, formatted text) act
/// directly on the sink and do not consult the script, the way a resource
/// with its own composite implementations would.
pub struct ScriptedWriter {
    /// Everything the sink has accepted, in order.
    pub sink: Vec<u8>,
    /// The outcome script for write attempts.
    pub ops: Vec<Op>,
    /// The next script entry to consult.
    pub next_op: usize,
}

impl ScriptedWriter {
    /// An empty sink that answers its write attempts as `ops` says.
    pub fn new(ops: Vec<Op>) -> (r: Self)
        ensures
            r.sink@ == Seq::<u8>::empty(),
            r.ops == ops,
            r.next_op == 0,
            r.write_inv(),
    {
        let sink: Vec<u8> = Vec::new();
        proof {
            assert(sink@ =~= Seq::<u8>::empty());
        }
        ScriptedWriter { sink, ops, next_op: 0 }
    }

    /// Hands back everything the sink has accepted.
    pub fn into_inner(self) -> (r: Vec<u8>)
        ensures
            r == self.sink,
    {
        self.sink
    }

    /// The outcome of a terminal attempt that goes ahead and accepts
    /// `data`, consuming one script entry if `used_op`.
    pub open spec fn accepts(
        pre: Self,
        data: Seq<u8>,
        post: Self,
        r: Result<usize, IoErrorKind>,
        used_op: bool,
    ) -> bool {
        &&& r == Ok::<usize, IoErrorKind>(data.len() as usize)
        &&& post.sink@ == pre.sink@ + data
        &&& post.ops == pre.ops
        &&& post.next_op == if used_op {
            (pre.next_op + 1) as usize
        } else {
            pre.next_op
        }
    }
}

impl WriteResource for ScriptedWriter {
    open spec fn write_inv(&self) -> bool {
        self.next_op <= self.ops@.len()
    }

    open spec fn write_interrupts(&self) -> nat {
        interrupts_from(self.ops@, self.next_op as int)
    }

    open spec fn write_skip(&self) -> Self {
        ScriptedWriter { next_op: (self.next_op + 1) as usize, ..*self }
    }

    open spec fn write_rel(
        pre: Self,
        data: Seq<u8>,
        post: Self,
        r: Result<usize, IoErrorKind>,
    ) -> bool {
        match next_of(pre.ops@, pre.next_op as int) {
            Some(Op::Fail(k)) => {
                &&& r == Err::<usize, IoErrorKind>(k)
                &&& post == pre.write_skip()
            },
            Some(Op::Run) => Self::accepts(pre, data, post, r, true),
            None => Self::accepts(pre, data, post, r, false),
        }
    }

    open spec fn flush_rel(pre: Self, post: Self, r: Result<(), IoErrorKind>) -> bool {
        &&& r == Ok::<(), IoErrorKind>(())
        &&& post == pre
    }

    open spec fn write_all_rel(
        pre: Self,
        data: Seq<u8>,
        post: Self,
        r: Result<(), IoErrorKind>,
    ) -> bool {
        &&& r == Ok::<(), IoErrorKind>(())
        &&& post.sink@ == pre.sink@ + data
        &&& post.ops == pre.ops
        &&& post.next_op == pre.next_op
    }

    open spec fn write_fmt_rel(
        pre: Self,
        data: Seq<u8>,
        post: Self,
        r: Result<(), IoErrorKind>,
    ) -> bool {
        &&& r == Ok::<(), IoErrorKind>(())
        &&& post.sink@ == pre.sink@ + data
        &&& post.ops == pre.ops
        &&& post.next_op == pre.next_op
    }

    #[verifier::loop_isolation(false)]
    fn write_attempt(&mut self, data: &[u8]) -> (r: Result<usize, IoErrorKind>) {
        let ghost pre = *self;
        if self.next_op < self.ops.len() {
            let op = self.ops[self.next_op];
            self.next_op = self.next_op + 1;
            match op {
                Op::Fail(k) => {
                    proof {
                        assert(*self == pre.write_skip());
                        if k == IoErrorKind::Interrupted {
                            assert(pre.write_interrupts() == 1 + self.write_interrupts());
                        } else {
                            assert(pre.write_interrupts() == 0);
                        }
                    }
                    return Err(k);
                },
                Op::Run => {},
            }
        }
        proof {
            assert(pre.write_interrupts() == 0);
        }
        let ghost sink0 = self.sink@;
        let ghost mid = *self;
        let n: usize = data.len();
        let mut i: usize = 0;
        while i < n
            invariant
                i <= n,
                self.sink@ == sink0 + data@.subrange(0, i as int),
                self.ops == mid.ops,
                self.next_op == mid.next_op,
            decreases n - i,
        {
            let b = data[i];
            self.sink.push(b);
            proof {
                assert(self.sink@ =~= sink0 + data@.subrange(0, i + 1));
            }
            i = i + 1;
        }
        proof {
            assert(self.sink@ =~= pre.sink@ + data@);
        }
        Ok(n)
    }

    fn flush(&mut self) -> (r: Result<(), IoErrorKind>) {
        Ok(())
    }

    #[verifier::loop_isolation(false)]
    fn write_all(&mut self, data: &[u8]) -> (r: Result<(), IoErrorKind>) {
        let ghost pre = *self;
        let ghost sink0 = self.sink@;
        let ghost mid = *self;
        let n: usize = data.len();
        let mut i: usize = 0;
        while i < n
            invariant
                i <= n,
                self.sink@ == sink0 + data@.subrange(0, i as int),
                self.ops == mid.ops,
                self.next_op == mid.next_op,
            decreases n - i,
        {
            let b = data[i];
            self.sink.push(b);
            proof {
                assert(self.sink@ =~= sink0 + data@.subrange(0, i + 1));
            }
            i = i + 1;
        }
        proof {
            assert(self.sink@ =~= pre.sink@ + data@);
        }
        Ok(())
    }

    #[verifier::loop_isolation(false)]
    fn write_fmt(&mut self, text: &str) -> (r: Result<(), IoErrorKind>) {
        let ghost pre = *self;
        let ghost sink0 = self.sink@;
        let ghost mid = *self;
        let bytes: &[u8] = text.as_bytes();
        let n: usize = bytes.len();
        let mut i: usize = 0;
        while i < n
            invariant
                i <= n,
                self.sink@ == sink0 + bytes@.subrange(0, i as int),
                self.ops == mid.ops,
                self.next_op == mid.next_op,
            decreases n - i,
        {
            let b = bytes[i];
            self.sink.push(b);
            proof {
                assert(self.sink@ =~= sink0 + bytes@.subrange(0, i + 1));
            }
            i = i + 1;
        }
        proof {
            assert(self.sink@ =~= pre.sink@ + text.spec_bytes());
        }
        Ok(())
    }
}

} // verus!
