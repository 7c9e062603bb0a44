use vstd::prelude::*;
use vstd::string::StringExecFns;
use vstd::utf8::encode_utf8;

use crate::common::MachineError;

verus! {

/// The line that, read from the terminal, opens the debugger instead of
/// reaching the program.
pub open spec fn debugger_escape() -> Seq<char> {
    seq!['d', 'b', 'g', '\n']
}

/// The bytes one script line contributes: its UTF-8 encoding and a newline.
pub open spec fn line_bytes(line: Seq<char>) -> Seq<u8> {
    encode_utf8(line).push(10u8)
}

/// The bytes a script contributes: each line in order, each ended by a newline.
pub open spec fn script_bytes(lines: Seq<String>) -> Seq<u8>
    decreases lines.len(),
{
    if lines.len() == 0 {
        Seq::empty()
    } else {
        script_bytes(lines.drop_last()) + line_bytes(lines.last()@)
    }
}

/// What the input queue hands out on one read, and what is left after it.
pub open spec fn take_byte(pending: Seq<u8>) -> (Option<u8>, Seq<u8>) {
    if pending.len() == 0 {
        (None, pending)
    } else {
        (Some(pending[0]), pending.drop_first())
    }
}

/// The bytes handed out by `n` reads of a queue that starts as `pending`.
pub open spec fn delivered(pending: Seq<u8>, n: nat) -> Seq<u8>
    decreases n,
{
    if n == 0 {
        Seq::empty()
    } else {
        match take_byte(pending).0 {
            Some(b) => seq![b] + delivered(take_byte(pending).1, (n - 1) as nat),
            None => Seq::empty(),
        }
    }
}

proof fn lemma_drain(q: Seq<u8>)
    ensures
        delivered(q, q.len()) == q,
    decreases q.len(),
{
    if q.len() > 0 {
        lemma_drain(q.drop_first());
        assert(seq![q[0]] + q.drop_first() =~= q);
    }
}

/// With a script loaded and no terminal input, the bytes `in` reads, one per
/// read, are the script's lines in order, each followed by a newline.
pub proof fn lemma_script_delivery(lines: Seq<String>)
    ensures
        delivered(script_bytes(lines), script_bytes(lines).len()) == script_bytes(lines),
        lines.len() > 0 ==> script_bytes(lines) == script_bytes(lines.drop_last()) + encode_utf8(
            lines.last()@,
        ).push(10u8),
{
    lemma_drain(script_bytes(lines));
}

/// What happened to a line read from the terminal.
#[derive(Debug, Clone, Copy, PartialEq, Eq, Structural)]
pub enum LineOutcome {
    /// The line's bytes were queued for `in`.
    Queued,
    /// The line was the debugger escape; nothing was queued.
    OpenDebugger,
}

/// The queue of bytes waiting to be read by `in`.
pub struct InputBuffer {
    bytes: Vec<u8>,
    pos: usize,
}

impl View for InputBuffer {
    type V = Seq<u8>;

    /// The pending bytes, in the order `in` will read them.
    closed spec fn view(&self) -> Seq<u8> {
        self.bytes@.subrange(self.pos as int, self.bytes@.len() as int)
    }
}

impl InputBuffer {
    pub closed spec fn wf(&self) -> bool {
        self.pos <= self.bytes@.len()
    }

    pub fn new() -> (r: InputBuffer)
        ensures
            r.wf(),
            r@ == Seq::<u8>::empty(),
    {
        InputBuffer { bytes: Vec::new(), pos: 0 }
    }

    pub fn is_empty(&self) -> (r: bool)
        requires
            self.wf(),
        ensures
            r == (self@.len() == 0),
    {
        self.pos == self.bytes.len()
    }

    /// Appends bytes at the end of the queue.
    fn enqueue(&mut self, extra: &[u8])
        requires
            old(self).wf(),
        ensures
            final(self).wf(),
            final(self)@ == old(self)@ + extra@,
    {
        if self.pos == self.bytes.len() {
            self.bytes.clear();
            self.pos = 0;
        }
        let ghost start = self@;
        let mut i: usize = 0;
        while i < extra.len()
            invariant
                self.wf(),
                i <= extra@.len(),
                self@ == start + extra@.subrange(0, i as int),
            decreases extra@.len() - i,
        {
            let ghost before = self@;
            self.bytes.push(extra[i]);
            assert(self@ =~= before.push(extra@[i as int]));
            assert(extra@.subrange(0, i + 1) =~= extra@.subrange(0, i as int).push(extra@[i as int]));
            i = i + 1;
            assert(self@ =~= start + extra@.subrange(0, i as int));
        }
        assert(extra@.subrange(0, i as int) =~= extra@);
    }

    /// Replaces the queue with the script: each line's bytes followed by a newline.
    pub fn load_script(&mut self, lines: &Vec<String>)
        ensures
            final(self).wf(),
            final(self)@ == script_bytes(lines@),
    {
        self.bytes = Vec::new();
        self.pos = 0;
        let mut i: usize = 0;
        while i < lines.len()
            invariant
                self.wf(),
                i <= lines@.len(),
                self@ == script_bytes(lines@.subrange(0, i as int)),
            decreases lines@.len() - i,
        {
            let text = lines[i].as_str();
            self.enqueue(text.as_bytes());
            let newline: [u8; 1] = [10u8];
            self.enqueue(newline.as_slice());
            proof {
                let next = lines@.subrange(0, i + 1);
                assert(next.drop_last() =~= lines@.subrange(0, i as int));
                assert(newline@ =~= seq![10u8]);
            }
            i = i + 1;
            assert(self@ =~= script_bytes(lines@.subrange(0, i as int)));
        }
        assert(lines@.subrange(0, i as int) =~= lines@);
    }

    /// Hands out the next pending byte, if any.
    pub fn next_byte(&mut self) -> (r: Option<u8>)
        requires
            old(self).wf(),
        ensures
            final(self).wf(),
            (r, final(self)@) == take_byte(old(self)@),
    {
        if self.pos < self.bytes.len() {
            let b = self.bytes[self.pos];
            self.pos = self.pos + 1;
            assert(self@ =~= old(self)@.drop_first());
            Some(b)
        } else {
            None
        }
    }

    /// Takes a line as read from the terminal, newline included. The debugger
    /// escape is not queued; an empty read means the terminal has no more input.
    pub fn supply_line(&mut self, line: &String) -> (r: Result<LineOutcome, MachineError>)
        requires
            old(self).wf(),
        ensures
            final(self).wf(),
            line@.len() == 0 ==> r == Err::<LineOutcome, MachineError>(
                MachineError::EmptyInputBuffer,
            ) && final(self)@ == old(self)@,
            line@ == debugger_escape() ==> r == Ok::<LineOutcome, MachineError>(
                LineOutcome::OpenDebugger,
            ) && final(self)@ == old(self)@,
            line@.len() != 0 && line@ != debugger_escape() ==> r == Ok::<
                LineOutcome,
                MachineError,
            >(LineOutcome::Queued) && final(self)@ == old(self)@ + encode_utf8(line@),
    {
        if line.as_str().is_empty() {
            return Err(MachineError::EmptyInputBuffer);
        }
        let escape = String::from_str("dbg\n");
        proof {
            reveal_strlit("dbg\n");
            assert(escape@ =~= debugger_escape());
        }
        if *line == escape {
            return Ok(LineOutcome::OpenDebugger);
        }
        self.enqueue(line.as_str().as_bytes());
        Ok(LineOutcome::Queued)
    }
}

} // verus!
