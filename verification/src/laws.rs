use vstd::prelude::*;

use crate::kind::IoErrorKind;
use crate::resource::{BufResource, ReadResource, WriteResource};
use crate::retry::{fill_settled, read_settled, write_settled};
use crate::script::{interrupts_from, next_of, Op};
use crate::scripted_buf::ScriptedBufReader;
use crate::scripted_reader::ScriptedReader;
use crate::scripted_writer::ScriptedWriter;

verus! {

broadcast use vstd::std_specs::vec::axiom_spec_len;

/// Law: an interrupted read attempt is invisible. Absorbing it leads to the
/// same settled state, so every later outcome is the one the caller would
/// have seen without the interruption; the read contract itself pins the
/// caller's buffer to its old value across the interrupted attempt.
pub proof fn lemma_read_interrupt_invisible<T: ReadResource>(s: T)
    requires
        s.read_interrupts() > 0,
    ensures
        read_settled(s.read_skip(), (s.read_interrupts() - 1) as nat)
            == read_settled(s, s.read_interrupts()),
{
}

/// Law: an interrupted refill attempt is invisible, as in
/// [`lemma_read_interrupt_invisible`].
pub proof fn lemma_fill_interrupt_invisible<T: BufResource>(s: T)
    requires
        s.fill_interrupts() > 0,
    ensures
        fill_settled(s.fill_skip(), (s.fill_interrupts() - 1) as nat)
            == fill_settled(s, s.fill_interrupts()),
{
}

/// Law: an interrupted write attempt is invisible, as in
/// [`lemma_read_interrupt_invisible`].
pub proof fn lemma_write_interrupt_invisible<T: WriteResource>(s: T)
    requires
        s.write_interrupts() > 0,
    ensures
        write_settled(s.write_skip(), (s.write_interrupts() - 1) as nat)
            == write_settled(s, s.write_interrupts()),
{
}

/// Law: absorbing the pending interruptions of a scripted reader advances
/// its script cursor past them, one entry per interrupted attempt, and
/// changes nothing else; the settled state has no interruption pending.
pub proof fn lemma_reader_settled(s: ScriptedReader)
    requires
        s.read_inv(),
    ensures
        s.next_op + s.read_interrupts() <= s.ops@.len(),
        read_settled(s, s.read_interrupts())
            == (ScriptedReader { next_op: (s.next_op + s.read_interrupts()) as usize, ..s }),
        read_settled(s, s.read_interrupts()).read_interrupts() == 0,
    decreases s.read_interrupts(),
{
    if s.read_interrupts() == 0 {
        assert(read_settled(s, 0) == s);
        assert((ScriptedReader { next_op: s.next_op, ..s }) == s);
    } else {
        let t = s.read_skip();
        assert(s.ops.len() == s.ops@.len());
        assert((s.next_op as int) < s.ops@.len());
        assert(s.ops@[s.next_op as int] == Op::Fail(IoErrorKind::Interrupted));
        assert(t.next_op as int == s.next_op + 1);
        assert(s.read_interrupts() == 1 + t.read_interrupts());
        assert(t.read_inv());
        lemma_reader_settled(t);
        assert(read_settled(s, s.read_interrupts())
            == read_settled(t, (s.read_interrupts() - 1) as nat));
    }
}

/// Law: absorbing the pending interruptions of a scripted writer advances
/// its script cursor past them, one entry per interrupted attempt, and
/// changes nothing else; the settled state has no interruption pending.
pub proof fn lemma_writer_settled(s: ScriptedWriter)
    requires
        s.write_inv(),
    ensures
        s.next_op + s.write_interrupts() <= s.ops@.len(),
        write_settled(s, s.write_interrupts())
            == (ScriptedWriter { next_op: (s.next_op + s.write_interrupts()) as usize, ..s }),
        write_settled(s, s.write_interrupts()).write_interrupts() == 0,
    decreases s.write_interrupts(),
{
    if s.write_interrupts() == 0 {
        assert(write_settled(s, 0) == s);
        assert((ScriptedWriter { next_op: s.next_op, ..s }) == s);
    } else {
        let t = s.write_skip();
        assert(s.ops.len() == s.ops@.len());
        assert((s.next_op as int) < s.ops@.len());
        assert(s.ops@[s.next_op as int] == Op::Fail(IoErrorKind::Interrupted));
        assert(t.next_op as int == s.next_op + 1);
        assert(s.write_interrupts() == 1 + t.write_interrupts());
        assert(t.write_inv());
        lemma_writer_settled(t);
        assert(write_settled(s, s.write_interrupts())
            == write_settled(t, (s.write_interrupts() - 1) as nat));
    }
}

/// Law: a retried read against a scripted reader makes exactly the scripted
/// interruptions plus one terminal attempt. Every outcome admitted by the
/// read contract returns the script's terminal outcome, never an
/// interruption, and consumes one script entry per interrupted attempt plus
/// one for the terminal attempt when the script drove it (none when the
/// script was exhausted).
pub proof fn lemma_read_attempts(
    pre: ScriptedReader,
    pre_buf: Seq<u8>,
    post: ScriptedReader,
    post_buf: Seq<u8>,
    r: Result<usize, IoErrorKind>,
)
    requires
        pre.read_inv(),
        ScriptedReader::read_rel(
            read_settled(pre, pre.read_interrupts()),
            pre_buf,
            post,
            post_buf,
            r,
        ),
    ensures
        r != Err::<usize, IoErrorKind>(IoErrorKind::Interrupted),
        post.data == pre.data,
        post.ops == pre.ops,
        next_of(pre.ops@, pre.next_op + pre.read_interrupts()) is Some ==> post.next_op
            == pre.next_op + pre.read_interrupts() + 1,
        next_of(pre.ops@, pre.next_op + pre.read_interrupts()) is None ==> post.next_op
            == pre.next_op + pre.read_interrupts(),
{
    lemma_reader_settled(pre);
    let t = read_settled(pre, pre.read_interrupts());
    assert(pre.ops.len() == pre.ops@.len());
    assert(t.ops == pre.ops);
    assert(t.next_op as int == pre.next_op + pre.read_interrupts());
    assert(t.read_interrupts() == interrupts_from(t.ops@, t.next_op as int));
    match next_of(t.ops@, t.next_op as int) {
        Some(op) => {
            assert((t.next_op as int) < t.ops@.len());
            if op == Op::Fail(IoErrorKind::Interrupted) {
                assert(t.read_interrupts() > 0);
            }
            assert(post.next_op as int == t.next_op + 1);
        },
        None => {
            assert(post.next_op == t.next_op);
        },
    }
}

/// Law: a retried write against a scripted writer makes exactly the
/// scripted interruptions plus one terminal attempt, as in
/// [`lemma_read_attempts`].
pub proof fn lemma_write_attempts(
    pre: ScriptedWriter,
    data: Seq<u8>,
    post: ScriptedWriter,
    r: Result<usize, IoErrorKind>,
)
    requires
        pre.write_inv(),
        ScriptedWriter::write_rel(write_settled(pre, pre.write_interrupts()), data, post, r),
    ensures
        r != Err::<usize, IoErrorKind>(IoErrorKind::Interrupted),
        post.ops == pre.ops,
        next_of(pre.ops@, pre.next_op + pre.write_interrupts()) is Some ==> post.next_op
            == pre.next_op + pre.write_interrupts() + 1,
        next_of(pre.ops@, pre.next_op + pre.write_interrupts()) is None ==> post.next_op
            == pre.next_op + pre.write_interrupts(),
{
    lemma_writer_settled(pre);
    let t = write_settled(pre, pre.write_interrupts());
    assert(pre.ops.len() == pre.ops@.len());
    assert(t.ops == pre.ops);
    assert(t.next_op as int == pre.next_op + pre.write_interrupts());
    assert(t.write_interrupts() == interrupts_from(t.ops@, t.next_op as int));
    match next_of(t.ops@, t.next_op as int) {
        Some(op) => {
            assert((t.next_op as int) < t.ops@.len());
            if op == Op::Fail(IoErrorKind::Interrupted) {
                assert(t.write_interrupts() > 0);
            }
            assert(post.next_op as int == t.next_op + 1);
        },
        None => {
            assert(post.next_op == t.next_op);
        },
    }
}

/// Law: absorbing the pending interruptions of a scripted buffered source
/// advances its script cursor past them, one entry per interrupted refill,
/// and changes nothing else; the settled state has no interruption pending.
pub proof fn lemma_buf_settled(s: ScriptedBufReader)
    requires
        s.buf_inv(),
    ensures
        s.next_op + s.fill_interrupts() <= s.ops@.len(),
        fill_settled(s, s.fill_interrupts())
            == (ScriptedBufReader { next_op: (s.next_op + s.fill_interrupts()) as usize, ..s }),
        fill_settled(s, s.fill_interrupts()).fill_interrupts() == 0,
    decreases s.fill_interrupts(),
{
    if s.fill_interrupts() == 0 {
        assert(fill_settled(s, 0) == s);
        assert((ScriptedBufReader { next_op: s.next_op, ..s }) == s);
    } else {
        let t = s.fill_skip();
        assert(s.ops.len() == s.ops@.len());
        assert((s.next_op as int) < s.ops@.len());
        assert(s.ops@[s.next_op as int] == Op::Fail(IoErrorKind::Interrupted));
        assert(t.next_op as int == s.next_op + 1);
        assert(s.fill_interrupts() == 1 + t.fill_interrupts());
        assert(t.buf_inv());
        lemma_buf_settled(t);
        assert(fill_settled(s, s.fill_interrupts())
            == fill_settled(t, (s.fill_interrupts() - 1) as nat));
    }
}

/// Law: a retried refill against a scripted buffered source makes exactly
/// the scripted interruptions plus one terminal attempt, as in
/// [`lemma_read_attempts`]; a refill that finds the buffer non-empty makes
/// no underlying attempt and consults no script entry.
pub proof fn lemma_fill_attempts(
    pre: ScriptedBufReader,
    post: ScriptedBufReader,
    r: Result<usize, IoErrorKind>,
)
    requires
        pre.buf_inv(),
        ScriptedBufReader::fill_rel(fill_settled(pre, pre.fill_interrupts()), post, r),
    ensures
        r != Err::<usize, IoErrorKind>(IoErrorKind::Interrupted),
        pre.buffered_bytes().len() > 0 ==> post == pre,
        pre.buffered_bytes().len() == 0 && next_of(
            pre.ops@,
            pre.next_op + pre.fill_interrupts(),
        ) is Some ==> post.next_op == pre.next_op + pre.fill_interrupts() + 1,
        pre.buffered_bytes().len() == 0 && next_of(
            pre.ops@,
            pre.next_op + pre.fill_interrupts(),
        ) is None ==> post.next_op == pre.next_op + pre.fill_interrupts(),
{
    lemma_buf_settled(pre);
    let t = fill_settled(pre, pre.fill_interrupts());
    assert(pre.ops.len() == pre.ops@.len());
    assert(t.ops == pre.ops);
    assert(t.next_op as int == pre.next_op + pre.fill_interrupts());
    if pre.buffered_bytes().len() > 0 {
        assert(pre.fill_interrupts() == 0);
        assert(t == pre);
    } else {
        assert(t.pos == pre.pos && t.filled == pre.filled);
        assert(t.fill_interrupts() == interrupts_from(t.ops@, t.next_op as int));
        match next_of(t.ops@, t.next_op as int) {
            Some(op) => {
                assert((t.next_op as int) < t.ops@.len());
                if op == Op::Fail(IoErrorKind::Interrupted) {
                    assert(t.fill_interrupts() > 0);
                }
                assert(post.next_op as int == t.next_op + 1);
            },
            None => {
                assert(post.next_op == t.next_op);
            },
        }
    }
}

} // verus!
