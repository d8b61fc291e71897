//! Accumulation of client bytes into a logical AT command line. A byte is
//! kept only while it is in the printable command range `[0x0A, 0x7A)`, the
//! accumulated text still begins like `AT` or `++`, and the line stays within
//! the anti-runaway bound of 50 bytes; any violation resets the line to
//! empty. Both the command interpreter and the relay's in-band detector run
//! these rules, so they live in a module of their own.

use vstd::prelude::*;

verus! {

/// The anti-runaway bound on an accumulated command line.
pub const MAX_LINE: usize = 50;

/// A byte in the printable command range `[0x0A, 0x7A)`.
pub open spec fn command_byte(b: u8) -> bool {
    0x0a <= b < 0x7a
}

/// The accumulated text still begins like a command: it is a prefix of some
/// line starting with `AT` or with `++`.
pub open spec fn prefix_ok(l: Seq<u8>) -> bool {
    if l.len() == 0 {
        true
    } else if l.len() == 1 {
        l[0] == 0x41 || l[0] == 0x2b
    } else {
        (l[0] == 0x41 && l[1] == 0x54) || (l[0] == 0x2b && l[1] == 0x2b)
    }
}

/// One byte of accumulation: append a printable byte, reset on anything that
/// violates the range, the prefix rule, or the length bound.
pub open spec fn step_line(l: Seq<u8>, b: u8) -> Seq<u8> {
    if !command_byte(b) {
        Seq::empty()
    } else {
        let l2 = l.push(b);
        if !prefix_ok(l2) || l2.len() > MAX_LINE {
            Seq::empty()
        } else {
            l2
        }
    }
}

/// The line after accumulating a whole chunk, byte by byte.
pub open spec fn line_after(l: Seq<u8>, chunk: Seq<u8>) -> Seq<u8>
    decreases chunk.len(),
{
    if chunk.len() == 0 {
        l
    } else {
        line_after(step_line(l, chunk[0]), chunk.drop_first())
    }
}

/// A line the accumulator can be holding: within the bound and with a valid
/// command prefix.
pub open spec fn line_wf(l: Seq<u8>) -> bool {
    l.len() <= MAX_LINE && prefix_ok(l)
}

/// One accumulation step keeps the line well formed, whatever came before:
/// in particular the line never exceeds 50 bytes, and a byte outside the
/// printable command range resets it to empty.
pub proof fn lemma_step_line_wf(l: Seq<u8>, b: u8)
    ensures
        line_wf(step_line(l, b)),
        !command_byte(b) ==> step_line(l, b) == Seq::<u8>::empty(),
{
    if command_byte(b) && prefix_ok(l.push(b)) && l.push(b).len() <= MAX_LINE {
        assert(prefix_ok(step_line(l, b)));
    }
}

/// Accumulating a whole chunk keeps the line well formed; the bound of 50
/// bytes therefore holds across every read the session makes.
pub proof fn lemma_line_after_wf(l: Seq<u8>, chunk: Seq<u8>)
    requires
        line_wf(l),
    ensures
        line_wf(line_after(l, chunk)),
    decreases chunk.len(),
{
    if chunk.len() > 0 {
        lemma_step_line_wf(l, chunk[0]);
        lemma_line_after_wf(step_line(l, chunk[0]), chunk.drop_first());
    }
}

/// Accumulating one more byte after a chunk is one more step.
pub proof fn lemma_line_after_snoc(l: Seq<u8>, chunk: Seq<u8>, b: u8)
    ensures
        line_after(l, chunk.push(b)) == step_line(line_after(l, chunk), b),
    decreases chunk.len(),
{
    if chunk.len() == 0 {
        assert(chunk.push(b)[0] == b);
        assert(chunk.push(b).drop_first() =~= Seq::<u8>::empty());
        assert(line_after(l, chunk.push(b)) == line_after(step_line(l, b), Seq::<u8>::empty()));
        assert(line_after(step_line(l, b), Seq::<u8>::empty()) == step_line(l, b));
    } else {
        assert(chunk.push(b)[0] == chunk[0]);
        assert(chunk.push(b).drop_first() =~= chunk.drop_first().push(b));
        lemma_line_after_snoc(step_line(l, chunk[0]), chunk.drop_first(), b);
    }
}

/// Run one byte of accumulation on the held line.
pub fn push_byte(line: &mut Vec<u8>, b: u8)
    requires
        old(line)@.len() <= MAX_LINE,
    ensures
        final(line)@ == step_line(old(line)@, b),
{
    if !(0x0a <= b && b < 0x7a) {
        line.clear();
        return ;
    }
    line.push(b);
    let n = line.len();
    let bad_prefix = if n == 1 {
        !(line[0] == 0x41 || line[0] == 0x2b)
    } else {
        !((line[0] == 0x41 && line[1] == 0x54) || (line[0] == 0x2b && line[1] == 0x2b))
    };
    if bad_prefix || n > MAX_LINE {
        line.clear();
    }
}

/// Accumulate a whole read chunk into the held line.
pub fn accumulate(line: &mut Vec<u8>, chunk: &[u8])
    requires
        line_wf(old(line)@),
    ensures
        final(line)@ == line_after(old(line)@, chunk@),
        line_wf(final(line)@),
{
    let mut i: usize = 0;
    while i < chunk.len()
        invariant
            i <= chunk.len(),
            line@ == line_after(old(line)@, chunk@.take(i as int)),
            line_wf(line@),
        decreases chunk.len() - i,
    {
        proof {
            lemma_line_after_snoc(old(line)@, chunk@.take(i as int), chunk@[i as int]);
            assert(chunk@.take(i as int).push(chunk@[i as int]) =~= chunk@.take(i + 1));
            lemma_step_line_wf(line@, chunk@[i as int]);
        }
        push_byte(line, chunk[i]);
        i += 1;
    }
    proof {
        assert(chunk@.take(chunk@.len() as int) =~= chunk@);
    }
}

} // verus!
