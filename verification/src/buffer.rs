//! The batch buffer: encoded lines in the order in which they were appended.

use crate::line::texts;
use vstd::prelude::*;
use vstd::string::*;

verus! {

/// The lines joined by a newline, with none after the last.
pub open spec fn join_lines(lines: Seq<Seq<char>>) -> Seq<char>
    decreases lines.len(),
{
    if lines.len() == 0 {
        Seq::empty()
    } else if lines.len() == 1 {
        lines[0]
    } else {
        join_lines(lines.drop_last()) + seq!['\n'] + lines.last()
    }
}

/// How many lines a count reaches in a buffer of `len` lines.
pub open spec fn front(count: nat, len: nat) -> nat {
    if count <= len {
        count
    } else {
        len
    }
}

/// An append-only sequence of encoded lines.
///
/// Its view is the sequence of the lines' texts.
pub struct BatchBuffer {
    lines: Vec<String>,
}

impl View for BatchBuffer {
    type V = Seq<Seq<char>>;

    closed spec fn view(&self) -> Seq<Seq<char>> {
        texts(self.lines@)
    }
}

impl BatchBuffer {
    /// An empty buffer.
    pub fn new() -> (buffer: BatchBuffer)
        ensures
            buffer@ == Seq::<Seq<char>>::empty(),
    {
        BatchBuffer { lines: Vec::new() }
    }

    /// Appends one line.
    pub fn append(&mut self, line: String)
        ensures
            final(self)@ == old(self)@.push(line@),
    {
        self.lines.push(line);
    }

    /// Appends lines, keeping their order.
    pub fn extend(&mut self, lines: Vec<String>)
        ensures
            final(self)@ == old(self)@ + texts(lines@),
    {
        let mut lines = lines;
        self.lines.append(&mut lines);
    }

    /// The number of lines held.
    pub fn len(&self) -> (n: usize)
        ensures
            n == self@.len(),
    {
        self.lines.len()
    }

    /// Whether no line is held.
    pub fn is_empty(&self) -> (empty: bool)
        ensures
            empty == (self@.len() == 0),
    {
        self.lines.len() == 0
    }

    /// The first `count` lines joined, or all of them where fewer are held.
    /// The buffer is unchanged.
    pub fn joined_front(&self, count: usize) -> (body: String)
        ensures
            body@ == join_lines(self@.take(front(count as nat, self@.len()) as int)),
    {
        let count = if count <= self.lines.len() {
            count
        } else {
            self.lines.len()
        };
        let mut body = String::new();
        let mut i: usize = 0;
        while i < count
            invariant
                i <= count <= self.lines.len(),
                body@ == join_lines(self@.take(i as int)),
            decreases count - i,
        {
            let ghost front = self@.take(i as int + 1);
            assert(front.drop_last() =~= self@.take(i as int));
            if i > 0 {
                proof {
                    reveal_strlit("\n");
                }
                body.append("\n");
            }
            body.append(self.lines[i].as_str());
            assert(body@ =~= join_lines(front));
            i = i + 1;
        }
        body
    }

    /// All lines joined, the buffer unchanged.
    pub fn joined(&self) -> (body: String)
        ensures
            body@ == join_lines(self@),
    {
        assert(self@.take(self@.len() as int) =~= self@);
        self.joined_front(self.lines.len())
    }

    /// Removes the first `count` lines, or all of them where fewer are
    /// held, and keeps the rest in order.
    pub fn discard_front(&mut self, count: usize)
        ensures
            final(self)@ == old(self)@.skip(front(count as nat, old(self)@.len()) as int),
    {
        let count = if count <= self.lines.len() {
            count
        } else {
            self.lines.len()
        };
        let rest = self.lines.split_off(count);
        self.lines = rest;
    }

    /// Hands out all lines joined and leaves the buffer empty, in one step.
    pub fn drain(&mut self) -> (body: String)
        ensures
            body@ == join_lines(old(self)@),
            final(self)@ == Seq::<Seq<char>>::empty(),
    {
        let body = self.joined();
        self.lines.clear();
        body
    }
}

} // verus!
