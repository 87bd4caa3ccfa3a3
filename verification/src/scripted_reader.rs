use vstd::prelude::*;
use vstd::string::StringExecFns;

use crate::kind::IoErrorKind;
use crate::resource::ReadResource;
use crate::script::{all_ascii, ascii_chars, ascii_string, check_ascii, interrupts_from, next_of, Op};

verus! {

/// An in-memory byte source whose primitive attempts are driven by a
/// script: each read attempt first consults the next script entry, failing
/// or going ahead as it says; once the script is exhausted every attempt
/// goes ahead. A plain attempt delivers as many bytes as fit into the
/// caller's buffer from what is left of `data`.
///
/// The composite operations (read to end, read exact, read to string) act
/// directly on the remaining data and do not consult the script, the way a
/// resource with its own composite implementations would.
pub struct ScriptedReader {
    /// The bytes the source delivers.
    pub data: Vec<u8>,
    /// How many bytes have been delivered already.
    pub pos: usize,
    /// The outcome script for read attempts.
    pub ops: Vec<Op>,
    /// The next script entry to consult.
    pub next_op: usize,
}

impl ScriptedReader {
    /// The bytes not yet delivered.
    pub open spec fn remaining(&self) -> Seq<u8> {
        self.data@.skip(self.pos as int)
    }

    /// A source over `data` that answers its read attempts as `ops` says.
    pub fn new(data: Vec<u8>, ops: Vec<Op>) -> (r: Self)
        ensures
            r.data == data,
            r.pos == 0,
            r.ops == ops,
            r.next_op == 0,
            r.read_inv(),
    {
        ScriptedReader { data, pos: 0, ops, next_op: 0 }
    }

    /// The outcome of a terminal attempt that goes ahead and delivers
    /// bytes, consuming one script entry if `used_op`.
    pub open spec fn delivers(
        pre: Self,
        pre_buf: Seq<u8>,
        post: Self,
        post_buf: Seq<u8>,
        r: Result<usize, IoErrorKind>,
        used_op: bool,
    ) -> bool {
        let n = if pre.remaining().len() <= pre_buf.len() {
            pre.remaining().len() as int
        } else {
            pre_buf.len() as int
        };
        &&& r == Ok::<usize, IoErrorKind>(n as usize)
        &&& post_buf == pre.remaining().take(n) + pre_buf.skip(n)
        &&& post == (ScriptedReader {
            pos: (pre.pos + n) as usize,
            next_op: if used_op {
                (pre.next_op + 1) as usize
            } else {
                pre.next_op
            },
            ..pre
        })
    }
}

impl ReadResource for ScriptedReader {
    open spec fn read_inv(&self) -> bool {
        &&& self.pos <= self.data@.len()
        &&& self.next_op <= self.ops@.len()
    }

    open spec fn read_interrupts(&self) -> nat {
        interrupts_from(self.ops@, self.next_op as int)
    }

    open spec fn read_skip(&self) -> Self {
        ScriptedReader { next_op: (self.next_op + 1) as usize, ..*self }
    }

    open spec fn read_rel(
        pre: Self,
        pre_buf: Seq<u8>,
        post: Self,
        post_buf: Seq<u8>,
        r: Result<usize, IoErrorKind>,
    ) -> bool {
        match next_of(pre.ops@, pre.next_op as int) {
            Some(Op::Fail(k)) => {
                &&& r == Err::<usize, IoErrorKind>(k)
                &&& post == pre.read_skip()
                &&& post_buf == pre_buf
            },
            Some(Op::Run) => Self::delivers(pre, pre_buf, post, post_buf, r, true),
            None => Self::delivers(pre, pre_buf, post, post_buf, r, false),
        }
    }

    open spec fn read_to_end_rel(
        pre: Self,
        pre_buf: Seq<u8>,
        post: Self,
        post_buf: Seq<u8>,
        r: Result<usize, IoErrorKind>,
    ) -> bool {
        &&& r == Ok::<usize, IoErrorKind>(pre.remaining().len() as usize)
        &&& post_buf == pre_buf + pre.remaining()
        &&& post == (ScriptedReader { pos: (pre.pos + pre.remaining().len()) as usize, ..pre })
    }

    open spec fn read_exact_rel(
        pre: Self,
        pre_buf: Seq<u8>,
        post: Self,
        post_buf: Seq<u8>,
        r: Result<(), IoErrorKind>,
    ) -> bool {
        if pre.remaining().len() >= pre_buf.len() {
            &&& r == Ok::<(), IoErrorKind>(())
            &&& post_buf == pre.remaining().take(pre_buf.len() as int)
            &&& post == (ScriptedReader { pos: (pre.pos + pre_buf.len()) as usize, ..pre })
        } else {
            &&& r == Err::<(), IoErrorKind>(IoErrorKind::UnexpectedEof)
            &&& post_buf == pre_buf
            &&& post == pre
        }
    }

    open spec fn read_to_string_rel(
        pre: Self,
        pre_text: Seq<char>,
        post: Self,
        post_text: Seq<char>,
        r: Result<usize, IoErrorKind>,
    ) -> bool {
        if all_ascii(pre.remaining()) {
            &&& r == Ok::<usize, IoErrorKind>(pre.remaining().len() as usize)
            &&& post_text == pre_text + ascii_chars(pre.remaining())
            &&& post == (ScriptedReader { pos: (pre.pos + pre.remaining().len()) as usize, ..pre })
        } else {
            &&& r == Err::<usize, IoErrorKind>(IoErrorKind::InvalidData)
            &&& post_text == pre_text
            &&& post == pre
        }
    }

    #[verifier::loop_isolation(false)]
    fn read_attempt(&mut self, buf: &mut Vec<u8>) -> (r: Result<usize, IoErrorKind>) {
        let ghost pre = *self;
        let ghost b0 = buf@;
        if self.next_op < self.ops.len() {
            let op = self.ops[self.next_op];
            self.next_op = self.next_op + 1;
            match op {
                Op::Fail(k) => {
                    proof {
                        assert(*self == pre.read_skip());
                        if k == IoErrorKind::Interrupted {
                            assert(pre.read_interrupts() == 1 + self.read_interrupts());
                        } else {
                            assert(pre.read_interrupts() == 0);
                        }
                    }
                    return Err(k);
                },
                Op::Run => {},
            }
        }
        proof {
            assert(pre.read_interrupts() == 0);
        }
        let avail: usize = self.data.len() - self.pos;
        let n: usize = if avail <= buf.len() {
            avail
        } else {
            buf.len()
        };
        let mut i: usize = 0;
        while i < n
            invariant
                i <= n,
                buf@.len() == b0.len(),
                forall|j: int| 0 <= j < i ==> buf@[j] == self.data@[self.pos + j],
                forall|j: int| i <= j < buf@.len() ==> buf@[j] == b0[j],
            decreases n - i,
        {
            let b = self.data[self.pos + i];
            buf.set(i, b);
            i = i + 1;
        }
        self.pos = self.pos + n;
        proof {
            assert(buf@ =~= pre.remaining().take(n as int) + b0.skip(n as int));
            assert(Self::read_rel(pre, b0, *self, buf@, Ok(n)));
        }
        Ok(n)
    }

    #[verifier::loop_isolation(false)]
    fn read_to_end(&mut self, buf: &mut Vec<u8>) -> (r: Result<usize, IoErrorKind>) {
        let ghost pre = *self;
        let ghost b0 = buf@;
        let n: usize = self.data.len() - self.pos;
        let mut i: usize = 0;
        while i < n
            invariant
                i <= n,
                buf@ == b0 + self.data@.subrange(self.pos as int, self.pos + i),
            decreases n - i,
        {
            let b = self.data[self.pos + i];
            buf.push(b);
            proof {
                assert(buf@ =~= b0 + self.data@.subrange(self.pos as int, self.pos + i + 1));
            }
            i = i + 1;
        }
        self.pos = self.pos + n;
        proof {
            assert(buf@ =~= b0 + pre.remaining());
        }
        Ok(n)
    }

    #[verifier::loop_isolation(false)]
    fn read_exact(&mut self, buf: &mut Vec<u8>) -> (r: Result<(), IoErrorKind>) {
        let ghost pre = *self;
        let ghost b0 = buf@;
        let avail: usize = self.data.len() - self.pos;
        if avail < buf.len() {
            return Err(IoErrorKind::UnexpectedEof);
        }
        let n: usize = buf.len();
        let mut i: usize = 0;
        while i < n
            invariant
                i <= n,
                buf@.len() == b0.len(),
                forall|j: int| 0 <= j < i ==> buf@[j] == self.data@[self.pos + j],
                forall|j: int| i <= j < buf@.len() ==> buf@[j] == b0[j],
            decreases n - i,
        {
            let b = self.data[self.pos + i];
            buf.set(i, b);
            i = i + 1;
        }
        self.pos = self.pos + n;
        proof {
            assert(buf@ =~= pre.remaining().take(n as int));
        }
        Ok(())
    }

    #[verifier::loop_isolation(false)]
    fn read_to_string(&mut self, text: &mut String) -> (r: Result<usize, IoErrorKind>) {
        let ghost pre = *self;
        if !check_ascii(&self.data, self.pos) {
            return Err(IoErrorKind::InvalidData);
        }
        let n: usize = self.data.len() - self.pos;
        let mut tail: Vec<u8> = Vec::new();
        let mut i: usize = 0;
        while i < n
            invariant
                i <= n,
                tail@ == self.data@.subrange(self.pos as int, self.pos + i),
            decreases n - i,
        {
            let b = self.data[self.pos + i];
            tail.push(b);
            proof {
                assert(tail@ =~= self.data@.subrange(self.pos as int, self.pos + i + 1));
            }
            i = i + 1;
        }
        proof {
            assert(tail@ =~= pre.remaining());
        }
        let piece = ascii_string(&tail);
        text.append(piece.as_str());
        self.pos = self.pos + n;
        Ok(n)
    }
}

} // verus!
