//! The relay engine: once a session enters data mode, two copy directions
//! move bytes unmodified between client and backend. The client→backend
//! direction re-runs the AT command detection over the live stream — an
//! accumulated line starting with `AT` that reaches a carriage return, or
//! three consecutive `+` bytes (the classic Hayes escape), ends the relay at
//! once, and the chunk that triggered it is not forwarded. The engine here
//! makes every decision and counts the bytes moved; the host program owns
//! the sockets, performs the reads and writes it is told to, and cancels the
//! opposite direction when one ends.

use crate::line::{line_wf, prefix_ok, step_line, MAX_LINE};
use vstd::prelude::*;

verus! {

/// The `+` byte of the in-band escape sequence.
pub const PLUS: u8 = 0x2b;

/// Mathematical state of the in-band detector: the accumulated command line
/// and the run of consecutive `+` bytes seen (capped at three).
pub struct DetectorView {
    pub line: Seq<u8>,
    pub plus_run: nat,
}

/// The detector state a fresh relay starts from.
pub open spec fn init_detector() -> DetectorView {
    DetectorView { line: Seq::empty(), plus_run: 0 }
}

/// Run of consecutive `+` bytes after one more byte, capped at three.
pub open spec fn plus_run_step(run: nat, b: u8) -> nat {
    if b == PLUS {
        if run < 3 {
            run + 1
        } else {
            3
        }
    } else {
        0
    }
}

/// A carriage return completes an accumulated line that begins with `AT`:
/// the in-band command that ends the relay.
pub open spec fn at_halt(l: Seq<u8>, b: u8) -> bool {
    b == 13 && {
        let l2 = step_line(l, b);
        l2.len() >= 2 && l2[0] == 0x41 && l2[1] == 0x54
    }
}

/// This byte ends the relay: it completes the `+++` escape or an in-band
/// `AT` command line.
pub open spec fn det_halts(d: DetectorView, b: u8) -> bool {
    plus_run_step(d.plus_run, b) >= 3 || at_halt(d.line, b)
}

/// Detector state after one byte; at a carriage return the accumulated line
/// starts over, as at a command boundary.
pub open spec fn det_step(d: DetectorView, b: u8) -> DetectorView {
    DetectorView {
        line: if b == 13 {
            Seq::empty()
        } else {
            step_line(d.line, b)
        },
        plus_run: plus_run_step(d.plus_run, b),
    }
}

/// Scan a chunk byte by byte: the detector state reached and whether the
/// relay must end. Scanning stops at the first byte that ends the relay.
pub open spec fn scan_bytes(d: DetectorView, chunk: Seq<u8>) -> (DetectorView, bool)
    decreases chunk.len(),
{
    if chunk.len() == 0 {
        (d, false)
    } else if det_halts(d, chunk[0]) {
        (det_step(d, chunk[0]), true)
    } else {
        scan_bytes(det_step(d, chunk[0]), chunk.drop_first())
    }
}

/// Three consecutive `+` bytes stand at position `i` of the chunk.
pub open spec fn plus_escape_at(chunk: Seq<u8>, i: int) -> bool {
    0 <= i && i + 3 <= chunk.len() && chunk[i] == PLUS && chunk[i + 1] == PLUS && chunk[i + 2]
        == PLUS
}

/// A `+++` sequence anywhere in a scanned chunk ends the relay, whatever the
/// detector had accumulated before.
pub proof fn lemma_plus_escape_halts(d: DetectorView, chunk: Seq<u8>, i: int)
    requires
        plus_escape_at(chunk, i),
        d.plus_run <= 3,
    ensures
        scan_bytes(d, chunk).1,
    decreases chunk.len(),
{
    let b0 = chunk[0];
    if !det_halts(d, b0) {
        let d2 = det_step(d, b0);
        let rest = chunk.drop_first();
        if i > 0 {
            assert(plus_escape_at(rest, i - 1));
            lemma_plus_escape_halts(d2, rest, i - 1);
        } else {
            assert(d2.plus_run >= 1 && d2.plus_run <= 3);
            let b1 = rest[0];
            assert(b1 == chunk[1] == PLUS);
            if det_halts(d2, b1) {
                assert(scan_bytes(d2, rest).1);
            } else {
                let d3 = det_step(d2, b1);
                let rest2 = rest.drop_first();
                assert(d3.plus_run >= 2 && d3.plus_run <= 3);
                let b2 = rest2[0];
                assert(b2 == chunk[2] == PLUS);
                assert(det_halts(d3, b2));
                assert(scan_bytes(d3, rest2).1);
            }
        }
    }
}

/// The in-band detector of the client→backend direction.
pub struct EscapeDetector {
    pub line: Vec<u8>,
    pub plus_run: u8,
}

impl View for EscapeDetector {
    type V = DetectorView;

    open spec fn view(&self) -> DetectorView {
        DetectorView { line: self.line@, plus_run: self.plus_run as nat }
    }
}

impl EscapeDetector {
    /// The held line obeys the accumulation rules and the plus run its cap.
    pub open spec fn wf(&self) -> bool {
        line_wf(self@.line) && self@.plus_run <= 3
    }

    /// A fresh detector, as each relay starts with.
    pub fn new() -> (d: EscapeDetector)
        ensures
            d@ == init_detector(),
            d.wf(),
    {
        EscapeDetector { line: Vec::new(), plus_run: 0 }
    }

    /// Scan one chunk of client→backend traffic; true means the relay ends
    /// here and the chunk is not forwarded.
    pub fn scan_chunk(&mut self, chunk: &[u8]) -> (halt: bool)
        requires
            old(self).wf(),
        ensures
            final(self).wf(),
            final(self)@ == scan_bytes(old(self)@, chunk@).0,
            halt == scan_bytes(old(self)@, chunk@).1,
    {
        proof {
            assert(chunk@.skip(0) =~= chunk@);
        }
        let mut i: usize = 0;
        while i < chunk.len()
            invariant
                i <= chunk.len(),
                self.wf(),
                scan_bytes(old(self)@, chunk@) == scan_bytes(self@, chunk@.skip(i as int)),
            decreases chunk.len() - i,
        {
            let ghost pre = self@;
            proof {
                assert(chunk@.skip(i as int)[0] == chunk@[i as int]);
                assert(chunk@.skip(i as int).drop_first() =~= chunk@.skip(i + 1));
            }
            let b = chunk[i];
            let new_run: u8 = if b == PLUS {
                if self.plus_run < 3 {
                    self.plus_run + 1
                } else {
                    3
                }
            } else {
                0
            };
            let mut halted = new_run >= 3;
            if b == 13 {
                if self.line.len() >= 2 && self.line.len() < MAX_LINE && self.line[0] == 0x41
                    && self.line[1] == 0x54 {
                    halted = true;
                }
                proof {
                    assert(prefix_ok(pre.line));
                    assert((new_run >= 3 || at_halt(pre.line, b)) == halted);
                }
                self.line.clear();
            } else {
                crate::line::push_byte(&mut self.line, b);
            }
            self.plus_run = new_run;
            proof {
                assert(self@ == det_step(pre, b));
                assert(halted == det_halts(pre, b));
            }
            if halted {
                proof {
                    assert(chunk@.skip(i as int).len() > 0);
                    assert(scan_bytes(pre, chunk@.skip(i as int)) == (det_step(pre, b), true));
                }
                return true;
            }
            proof {
                assert(scan_bytes(pre, chunk@.skip(i as int)) == scan_bytes(
                    self@,
                    chunk@.skip(i + 1),
                ));
            }
            i += 1;
        }
        proof {
            assert(chunk@.skip(chunk@.len() as int) =~= Seq::<u8>::empty());
        }
        false
    }
}

/// How much a direction's counter reads after more bytes moved: saturating,
/// so the report never wraps.
pub open spec fn sat_add(a: u64, n: nat) -> u64 {
    if a + n <= u64::MAX {
        (a + n) as u64
    } else {
        u64::MAX
    }
}

/// What the engine tells the host program to do with a client→backend chunk.
pub enum RelayVerdict {
    /// Write exactly these bytes to the backend.
    Forward(Vec<u8>),
    /// An in-band escape or command ended the relay; forward nothing and
    /// cancel the other direction.
    Halt,
}

/// One active relay pair: the in-band detector of the client→backend
/// direction and the bytes moved in each direction.
pub struct RelayEngine {
    pub detector: EscapeDetector,
    pub client_to_backend: u64,
    pub backend_to_client: u64,
    pub active: bool,
}

impl RelayEngine {
    /// The engine's detector is well formed.
    pub open spec fn wf(&self) -> bool {
        self.detector.wf()
    }

    /// A relay pair entering the relaying state: fresh detector, nothing
    /// moved yet.
    pub fn start() -> (r: RelayEngine)
        ensures
            r.wf(),
            r.active,
            r.detector@ == init_detector(),
            r.client_to_backend == 0,
            r.backend_to_client == 0,
    {
        RelayEngine {
            detector: EscapeDetector::new(),
            client_to_backend: 0,
            backend_to_client: 0,
            active: true,
        }
    }

    /// Decide what to do with one chunk read from the client: forward it
    /// unmodified, or end the relay on an in-band escape. The counter grows
    /// only by what is actually forwarded.
    pub fn on_client_chunk(&mut self, chunk: &[u8]) -> (r: RelayVerdict)
        requires
            old(self).wf(),
            old(self).active,
        ensures
            final(self).wf(),
            final(self).detector@ == scan_bytes(old(self).detector@, chunk@).0,
            final(self).backend_to_client == old(self).backend_to_client,
            scan_bytes(old(self).detector@, chunk@).1 ==> r is Halt && !final(self).active
                && final(self).client_to_backend == old(self).client_to_backend,
            !scan_bytes(old(self).detector@, chunk@).1 ==> (r matches RelayVerdict::Forward(v)
                && v@ == chunk@) && final(self).active && final(self).client_to_backend
                == sat_add(old(self).client_to_backend, chunk@.len()),
    {
        let halt = self.detector.scan_chunk(chunk);
        if halt {
            self.active = false;
            return RelayVerdict::Halt;
        }
        let n = chunk.len() as u64;
        if self.client_to_backend <= u64::MAX - n {
            self.client_to_backend = self.client_to_backend + n;
        } else {
            self.client_to_backend = u64::MAX;
        }
        RelayVerdict::Forward(crate::bytes::bytes_to_vec(chunk))
    }

    /// Pass one chunk read from the backend through to the client: the bytes
    /// go back exactly as read, with no framing added.
    pub fn on_backend_chunk(&mut self, chunk: &[u8]) -> (out: Vec<u8>)
        requires
            old(self).wf(),
            old(self).active,
        ensures
            final(self).wf(),
            out@ == chunk@,
            final(self).active == old(self).active,
            final(self).detector@ == old(self).detector@,
            final(self).client_to_backend == old(self).client_to_backend,
            final(self).backend_to_client == sat_add(old(self).backend_to_client, chunk@.len()),
    {
        let n = chunk.len() as u64;
        if self.backend_to_client <= u64::MAX - n {
            self.backend_to_client = self.backend_to_client + n;
        } else {
            self.backend_to_client = u64::MAX;
        }
        crate::bytes::bytes_to_vec(chunk)
    }

    /// A direction reached end of stream (or its peer was cancelled): the
    /// relay pair returns to idle; the counters keep their reports.
    pub fn finish(&mut self)
        requires
            old(self).wf(),
        ensures
            final(self).wf(),
            !final(self).active,
            final(self).client_to_backend == old(self).client_to_backend,
            final(self).backend_to_client == old(self).backend_to_client,
    {
        self.active = false;
    }
}

} // verus!
