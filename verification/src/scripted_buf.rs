use vstd::prelude::*;
use vstd::string::StringExecFns;

use crate::kind::IoErrorKind;
use crate::resource::BufResource;
use crate::script::{all_ascii, ascii_chars, ascii_string, check_ascii, interrupts_from, next_of, Op};

verus! {

/// Where the first stretch up to and including `delim` ends in `s`, looking
/// from `from`: one past the first `delim` at or after `from`, or the end of
/// `s` if there is none.
pub open spec fn delim_end(s: Seq<u8>, from: int, delim: u8) -> int
    decreases s.len() - from,
{
    if from < 0 || from >= s.len() {
        s.len() as int
    } else if s[from] == delim {
        from + 1
    } else {
        delim_end(s, from + 1, delim)
    }
}

/// An in-memory buffered byte source whose refill attempts are driven by a
/// script: a refill with a non-empty buffer touches nothing and consults no
/// script entry; a refill with an empty buffer consults the next script
/// entry, failing or going ahead as it says, and once the script is
/// exhausted every refill goes ahead. A refill that goes ahead buffers up
/// to `cap` further bytes of `data`.
///
/// The composite operations (read until, read line) act directly on the
/// remaining data and do not consult the script, the way a resource with
/// its own composite implementations would.
pub struct ScriptedBufReader {
    /// The bytes the source delivers.
    pub data: Vec<u8>,
    /// How many bytes have been consumed already.
    pub pos: usize,
    /// The end of the buffered region: `data[pos..filled]` is buffered.
    pub filled: usize,
    /// How many bytes one refill buffers at most.
    pub cap: usize,
    /// The outcome script for refill attempts.
    pub ops: Vec<Op>,
    /// The next script entry to consult.
    pub next_op: usize,
}

impl ScriptedBufReader {
    /// A buffered source over `data` with refill size `cap`, answering its
    /// refill attempts as `ops` says.
    pub fn new(data: Vec<u8>, cap: usize, ops: Vec<Op>) -> (r: Self)
        ensures
            r.data == data,
            r.pos == 0,
            r.filled == 0,
            r.cap == cap,
            r.ops == ops,
            r.next_op == 0,
            r.buf_inv(),
    {
        ScriptedBufReader { data, pos: 0, filled: 0, cap, ops, next_op: 0 }
    }

    /// Where the buffered region ends after one refill that goes ahead.
    pub open spec fn refill_end(&self) -> int {
        if self.pos + self.cap <= self.data@.len() {
            self.pos + self.cap
        } else {
            self.data@.len() as int
        }
    }

    /// The outcome of a terminal refill attempt that goes ahead, consuming
    /// one script entry if `used_op`.
    pub open spec fn refills(
        pre: Self,
        post: Self,
        r: Result<usize, IoErrorKind>,
        used_op: bool,
    ) -> bool {
        &&& r == Ok::<usize, IoErrorKind>((pre.refill_end() - pre.pos) as usize)
        &&& post == (ScriptedBufReader {
            filled: pre.refill_end() as usize,
            next_op: if used_op {
                (pre.next_op + 1) as usize
            } else {
                pre.next_op
            },
            ..pre
        })
    }

    /// The state after a composite read has taken `data[pos..end]`.
    pub open spec fn taken_to(pre: Self, end: int) -> Self {
        ScriptedBufReader {
            pos: end as usize,
            filled: if end <= pre.filled {
                pre.filled
            } else {
                end as usize
            },
            ..pre
        }
    }
}

impl BufResource for ScriptedBufReader {
    open spec fn buf_inv(&self) -> bool {
        &&& self.pos <= self.filled <= self.data@.len()
        &&& self.next_op <= self.ops@.len()
    }

    open spec fn buffered_bytes(&self) -> Seq<u8> {
        self.data@.subrange(self.pos as int, self.filled as int)
    }

    open spec fn fill_interrupts(&self) -> nat {
        if self.pos < self.filled {
            0
        } else {
            interrupts_from(self.ops@, self.next_op as int)
        }
    }

    open spec fn fill_skip(&self) -> Self {
        ScriptedBufReader { next_op: (self.next_op + 1) as usize, ..*self }
    }

    open spec fn fill_rel(pre: Self, post: Self, r: Result<usize, IoErrorKind>) -> bool {
        if pre.pos < pre.filled {
            &&& r == Ok::<usize, IoErrorKind>((pre.filled - pre.pos) as usize)
            &&& post == pre
        } else {
            match next_of(pre.ops@, pre.next_op as int) {
                Some(Op::Fail(k)) => {
                    &&& r == Err::<usize, IoErrorKind>(k)
                    &&& post == pre.fill_skip()
                },
                Some(Op::Run) => Self::refills(pre, post, r, true),
                None => Self::refills(pre, post, r, false),
            }
        }
    }

    open spec fn consume_rel(pre: Self, amt: nat, post: Self) -> bool {
        post == (ScriptedBufReader {
            pos: if pre.pos + amt <= pre.filled {
                (pre.pos + amt) as usize
            } else {
                pre.filled
            },
            ..pre
        })
    }

    open spec fn read_until_rel(
        pre: Self,
        delim: u8,
        pre_buf: Seq<u8>,
        post: Self,
        post_buf: Seq<u8>,
        r: Result<usize, IoErrorKind>,
    ) -> bool {
        let end = delim_end(pre.data@, pre.pos as int, delim);
        &&& r == Ok::<usize, IoErrorKind>((end - pre.pos) as usize)
        &&& post_buf == pre_buf + pre.data@.subrange(pre.pos as int, end)
        &&& post == Self::taken_to(pre, end)
    }

    open spec fn read_line_rel(
        pre: Self,
        pre_text: Seq<char>,
        post: Self,
        post_text: Seq<char>,
        r: Result<usize, IoErrorKind>,
    ) -> bool {
        let end = delim_end(pre.data@, pre.pos as int, 10u8);
        let segment = pre.data@.subrange(pre.pos as int, end);
        if all_ascii(segment) {
            &&& r == Ok::<usize, IoErrorKind>((end - pre.pos) as usize)
            &&& post_text == pre_text + ascii_chars(segment)
            &&& post == Self::taken_to(pre, end)
        } else {
            &&& r == Err::<usize, IoErrorKind>(IoErrorKind::InvalidData)
            &&& post_text == pre_text
            &&& post == pre
        }
    }

    fn fill_attempt(&mut self) -> (r: Result<usize, IoErrorKind>) {
        let ghost pre = *self;
        if self.pos < self.filled {
            return Ok(self.filled - self.pos);
        }
        if self.next_op < self.ops.len() {
            let op = self.ops[self.next_op];
            self.next_op = self.next_op + 1;
            match op {
                Op::Fail(k) => {
                    proof {
                        assert(*self == pre.fill_skip());
                        if k == IoErrorKind::Interrupted {
                            assert(pre.fill_interrupts() == 1 + self.fill_interrupts());
                        } else {
                            assert(pre.fill_interrupts() == 0);
                        }
                    }
                    return Err(k);
                },
                Op::Run => {},
            }
        }
        proof {
            assert(pre.fill_interrupts() == 0);
        }
        let end: usize = if self.cap < self.data.len() - self.pos {
            self.pos + self.cap
        } else {
            self.data.len()
        };
        self.filled = end;
        Ok(end - self.pos)
    }

    #[verifier::loop_isolation(false)]
    fn buffered(&self) -> (v: Vec<u8>) {
        let mut v: Vec<u8> = Vec::new();
        let mut i: usize = self.pos;
        while i < self.filled
            invariant
                self.pos <= i <= self.filled,
                v@ == self.data@.subrange(self.pos as int, i as int),
            decreases self.filled - i,
        {
            let b = self.data[i];
            v.push(b);
            proof {
                assert(v@ =~= self.data@.subrange(self.pos as int, i + 1));
            }
            i = i + 1;
        }
        v
    }

    fn consume(&mut self, amt: usize) {
        let room: usize = self.filled - self.pos;
        if amt < room {
            self.pos = self.pos + amt;
        } else {
            self.pos = self.filled;
        }
    }

    #[verifier::loop_isolation(false)]
    fn read_until(&mut self, delim: u8, buf: &mut Vec<u8>) -> (r: Result<usize, IoErrorKind>) {
        let ghost pre = *self;
        let ghost b0 = buf@;
        let n: usize = self.data.len();
        let mut j: usize = self.pos;
        while j < n && self.data[j] != delim
            invariant
                self.pos <= j <= n,
                delim_end(self.data@, self.pos as int, delim)
                    == delim_end(self.data@, j as int, delim),
            decreases n - j,
        {
            j = j + 1;
        }
        let end: usize = if j < n {
            j + 1
        } else {
            n
        };
        proof {
            assert(delim_end(self.data@, pre.pos as int, delim) == end);
        }
        let mut i: usize = self.pos;
        while i < end
            invariant
                self.pos <= i <= end,
                end <= self.data@.len(),
                buf@ == b0 + self.data@.subrange(self.pos as int, i as int),
            decreases end - i,
        {
            let b = self.data[i];
            buf.push(b);
            proof {
                assert(buf@ =~= b0 + self.data@.subrange(self.pos as int, i + 1));
            }
            i = i + 1;
        }
        let count: usize = end - self.pos;
        if self.filled < end {
            self.filled = end;
        }
        self.pos = end;
        Ok(count)
    }

    #[verifier::loop_isolation(false)]
    fn read_line(&mut self, text: &mut String) -> (r: Result<usize, IoErrorKind>) {
        let ghost pre = *self;
        let n: usize = self.data.len();
        let mut j: usize = self.pos;
        while j < n && self.data[j] != 10u8
            invariant
                self.pos <= j <= n,
                delim_end(self.data@, self.pos as int, 10u8)
                    == delim_end(self.data@, j as int, 10u8),
            decreases n - j,
        {
            j = j + 1;
        }
        let end: usize = if j < n {
            j + 1
        } else {
            n
        };
        proof {
            assert(delim_end(self.data@, pre.pos as int, 10u8) == end);
        }
        let mut segment: Vec<u8> = Vec::new();
        let mut i: usize = self.pos;
        while i < end
            invariant
                self.pos <= i <= end,
                end <= self.data@.len(),
                segment@ == self.data@.subrange(self.pos as int, i as int),
            decreases end - i,
        {
            let b = self.data[i];
            segment.push(b);
            proof {
                assert(segment@ =~= self.data@.subrange(self.pos as int, i + 1));
            }
            i = i + 1;
        }
        if !check_ascii(&segment, 0) {
            proof {
                assert(segment@.skip(0) =~= segment@);
            }
            return Err(IoErrorKind::InvalidData);
        }
        proof {
            assert(segment@.skip(0) =~= segment@);
        }
        let piece = ascii_string(&segment);
        text.append(piece.as_str());
        let count: usize = end - self.pos;
        if self.filled < end {
            self.filled = end;
        }
        self.pos = end;
        Ok(count)
    }
}

} // verus!
