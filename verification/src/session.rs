//! The per-session AT command interpreter and connection negotiator. A
//! session consumes the client's bytes one read chunk at a time, accumulates
//! a command line under the rules of `line`, and on a completed line applies
//! an ordered list of substring-containment rules: profile and toggle tokens
//! first, then a single dispatch (firmware info, dial setup, data-mode entry,
//! or a plain `OK`). The interpreter itself performs no I/O: it returns the
//! actions — bytes to send, a fixed pause, the start of the relay — that the
//! host program carries out in order.

use crate::bytes::{ascii_bytes, bytes_to_vec, contains_sub, has_sub, lit_bytes};
use crate::emitter::{frame_bytes, frame_result, CR, LF};
use crate::line::{accumulate, command_byte, line_after, line_wf};
use vstd::prelude::*;

verus! {

/// Token of a client signaling a non-56k softmodem profile.
pub open spec fn tok_softmodem() -> Seq<u8> {
    ascii_bytes("S51=31"@)
}

/// Modulation-select token that disables the 56k profile.
pub open spec fn tok_modulation() -> Seq<u8> {
    ascii_bytes("+MS=11,1"@)
}

/// Token marking the alternate client firmware family.
pub open spec fn tok_alt_family() -> Seq<u8> {
    ascii_bytes("F0"@)
}

/// Verbose result codes on.
pub open spec fn tok_verbose_on() -> Seq<u8> {
    ascii_bytes("V1"@)
}

/// Verbose result codes off.
pub open spec fn tok_verbose_off() -> Seq<u8> {
    ascii_bytes("V0"@)
}

/// Local echo on.
pub open spec fn tok_echo_on() -> Seq<u8> {
    ascii_bytes("E1"@)
}

/// Local echo off.
pub open spec fn tok_echo_off() -> Seq<u8> {
    ascii_bytes("E0"@)
}

/// Firmware-information request, sent by 56k-capable clients only.
pub open spec fn tok_info() -> Seq<u8> {
    ascii_bytes("I3"@)
}

/// Tone-dial token of a dial-setup command.
pub open spec fn tok_dial_tone() -> Seq<u8> {
    ascii_bytes("DT"@)
}

/// Pulse-dial token of a dial-setup command.
pub open spec fn tok_dial_pulse() -> Seq<u8> {
    ascii_bytes("DP"@)
}

/// Bare dial command ending the line: the request to enter data mode.
pub open spec fn tok_data_mode() -> Seq<u8> {
    ascii_bytes("TD\r"@)
}

/// First reserved number; dialing it never negotiates 56k.
pub open spec fn reserved_number_one() -> Seq<u8> {
    ascii_bytes("18006138199"@)
}

/// Second reserved number; dialing it never negotiates 56k.
pub open spec fn reserved_number_two() -> Seq<u8> {
    ascii_bytes("18004653537"@)
}

/// Fixed firmware-identification result code.
pub open spec fn firmware_id_code() -> Seq<u8> {
    ascii_bytes("V69420_WEBTV-K56_DLP"@)
}

/// Mathematical state of a session: the accumulated command line and the
/// per-session flags.
pub struct SessionView {
    pub command_line: Seq<u8>,
    pub is_56k_modem: bool,
    pub is_56k_connect: bool,
    pub is_webtvos: bool,
    pub verbose_results: bool,
    pub echo_enabled: bool,
}

/// One step the host program must carry out for the session.
pub enum Action {
    /// Write these bytes to the client socket.
    SendBytes(Vec<u8>),
    /// Wait the fixed inter-message delay of the alternate negotiation.
    Pause,
    /// Open the backend and start the relay engine.
    StartRelay,
}

/// Mathematical form of an `Action`.
pub enum ActionView {
    SendBytes(Seq<u8>),
    Pause,
    StartRelay,
}

impl View for Action {
    type V = ActionView;

    open spec fn view(&self) -> ActionView {
        match self {
            Action::SendBytes(v) => ActionView::SendBytes(v@),
            Action::Pause => ActionView::Pause,
            Action::StartRelay => ActionView::StartRelay,
        }
    }
}

/// The views of a list of actions, in order.
pub open spec fn acts_view(acts: Seq<Action>) -> Seq<ActionView> {
    acts.map_values(|a: Action| a@)
}

/// A completed line asks for the firmware information.
pub open spec fn is_info_cmd(line: Seq<u8>) -> bool {
    has_sub(line, tok_info())
}

/// A completed line is a dial-setup command.
pub open spec fn is_dial_cmd(line: Seq<u8>) -> bool {
    !is_info_cmd(line) && (has_sub(line, tok_dial_tone()) || has_sub(line, tok_dial_pulse()))
}

/// A completed line is the data-mode entry command.
pub open spec fn is_data_cmd(line: Seq<u8>) -> bool {
    !is_info_cmd(line) && !is_dial_cmd(line) && has_sub(line, tok_data_mode())
}

/// The dialed text names one of the two reserved numbers.
pub open spec fn dials_reserved(line: Seq<u8>) -> bool {
    has_sub(line, reserved_number_one()) || has_sub(line, reserved_number_two())
}

/// The profile and toggle rules of a completed line, applied in order and
/// before dispatch: 56k-disabling profiles, the alternate-family marker, and
/// the verbose and echo toggles.
pub open spec fn toggles_applied(s: SessionView, line: Seq<u8>) -> SessionView {
    let s1 = if has_sub(line, tok_softmodem()) || has_sub(line, tok_modulation()) {
        SessionView { is_56k_connect: false, ..s }
    } else {
        s
    };
    let s2 = if has_sub(line, tok_alt_family()) {
        SessionView { is_webtvos: false, ..s1 }
    } else {
        s1
    };
    let s3 = if has_sub(line, tok_verbose_on()) {
        SessionView { verbose_results: true, ..s2 }
    } else if has_sub(line, tok_verbose_off()) {
        SessionView { verbose_results: false, ..s2 }
    } else {
        s2
    };
    if has_sub(line, tok_echo_on()) {
        SessionView { echo_enabled: true, ..s3 }
    } else if has_sub(line, tok_echo_off()) {
        SessionView { echo_enabled: false, ..s3 }
    } else {
        s3
    }
}

/// The flag effects of the dispatched command, after the toggles have been
/// applied: firmware info turns the 56k profile on; dialing a reserved
/// number forces the 56k connect flag off.
pub open spec fn dispatch_flags(t: SessionView, line: Seq<u8>) -> SessionView {
    if is_info_cmd(line) {
        SessionView { is_56k_modem: true, is_56k_connect: true, ..t }
    } else if is_dial_cmd(line) && dials_reserved(line) {
        SessionView { is_56k_connect: false, ..t }
    } else {
        t
    }
}

/// The session flags after a completed line: toggles first, then the flag
/// effects of the dispatched command.
pub open spec fn flags_after_line(s: SessionView, line: Seq<u8>) -> SessionView {
    dispatch_flags(toggles_applied(s, line), line)
}

/// The carrier result code reported at data-mode entry.
pub open spec fn carrier_code(use_56k: bool) -> Seq<u8> {
    if use_56k {
        ascii_bytes("162"@)
    } else {
        ascii_bytes("79"@)
    }
}

/// The actions the dispatched command asks of the host program, with `t` the
/// flags once the toggles have been applied.
pub open spec fn dispatch_actions(t: SessionView, line: Seq<u8>) -> Seq<ActionView> {
    let d = dispatch_flags(t, line);
    if is_info_cmd(line) {
        seq![ActionView::SendBytes(frame_bytes(firmware_id_code(), false, true))]
    } else if is_dial_cmd(line) {
        if d.is_webtvos {
            seq![ActionView::SendBytes(frame_bytes(ascii_bytes("0"@), d.verbose_results, false))]
        } else {
            seq![
                ActionView::SendBytes(frame_bytes(ascii_bytes("2"@), d.verbose_results, false)),
                ActionView::Pause,
                ActionView::SendBytes(frame_bytes(ascii_bytes("1"@), d.verbose_results, false)),
                ActionView::Pause,
                ActionView::StartRelay,
            ]
        }
    } else if is_data_cmd(line) {
        seq![
            ActionView::SendBytes(
                frame_bytes(
                    carrier_code(d.is_56k_modem && d.is_56k_connect),
                    d.verbose_results,
                    false,
                ),
            ),
            ActionView::SendBytes(frame_bytes(ascii_bytes("67"@), d.verbose_results, false)),
            ActionView::SendBytes(frame_bytes(ascii_bytes("19"@), d.verbose_results, false)),
            ActionView::StartRelay,
        ]
    } else {
        seq![ActionView::SendBytes(frame_bytes(ascii_bytes("0"@), d.verbose_results, true))]
    }
}

/// The actions a completed line asks of the host program, in order.
pub open spec fn actions_for_line(s: SessionView, line: Seq<u8>) -> Seq<ActionView> {
    dispatch_actions(toggles_applied(s, line), line)
}

/// The command line the session holds once `chunk` has been accumulated.
pub open spec fn chunk_line(s: SessionView, chunk: Seq<u8>) -> Seq<u8> {
    line_after(s.command_line, chunk)
}

/// The chunk completes a command line: its last byte is a terminator and the
/// accumulated line is non-empty.
pub open spec fn chunk_completes(s: SessionView, chunk: Seq<u8>) -> bool {
    chunk.len() > 0 && (chunk.last() == CR || chunk.last() == LF) && chunk_line(s, chunk).len()
        > 0
}

/// The echo the chunk produces: with echo on and a first byte in the
/// printable command range, the whole chunk goes back verbatim.
pub open spec fn echo_of(s: SessionView, chunk: Seq<u8>) -> Seq<ActionView> {
    if s.echo_enabled && chunk.len() > 0 && command_byte(chunk[0]) {
        seq![ActionView::SendBytes(chunk)]
    } else {
        Seq::empty()
    }
}

/// The session state after one read chunk.
pub open spec fn state_after_chunk(s: SessionView, chunk: Seq<u8>) -> SessionView {
    if chunk_completes(s, chunk) {
        SessionView { command_line: Seq::empty(), ..flags_after_line(s, chunk_line(s, chunk)) }
    } else {
        SessionView { command_line: chunk_line(s, chunk), ..s }
    }
}

/// Every action one read chunk asks of the host program, in order: the echo
/// first, then whatever the completed line dispatches.
pub open spec fn actions_of_chunk(s: SessionView, chunk: Seq<u8>) -> Seq<ActionView> {
    echo_of(s, chunk) + if chunk_completes(s, chunk) {
        actions_for_line(s, chunk_line(s, chunk))
    } else {
        Seq::empty()
    }
}

/// The state of a fresh session: empty line, primary firmware family
/// assumed, verbose results and echo on, no 56k negotiated.
pub open spec fn init_session() -> SessionView {
    SessionView {
        command_line: Seq::empty(),
        is_56k_modem: false,
        is_56k_connect: false,
        is_webtvos: true,
        verbose_results: true,
        echo_enabled: true,
    }
}

/// The verbose and echo toggles are sticky: a chunk whose completed line
/// holds none of the `V1`/`V0` or `E1`/`E0` tokens leaves the respective
/// flag exactly as it was, whatever else the line does.
pub proof fn lemma_toggles_sticky(s: SessionView, chunk: Seq<u8>)
    ensures
        !has_sub(chunk_line(s, chunk), tok_verbose_on()) && !has_sub(
            chunk_line(s, chunk),
            tok_verbose_off(),
        ) ==> state_after_chunk(s, chunk).verbose_results == s.verbose_results,
        !has_sub(chunk_line(s, chunk), tok_echo_on()) && !has_sub(
            chunk_line(s, chunk),
            tok_echo_off(),
        ) ==> state_after_chunk(s, chunk).echo_enabled == s.echo_enabled,
{
}

/// A dial-setup line naming either reserved number leaves the session with
/// the 56k connect flag off, whatever the prior 56k state was.
pub proof fn lemma_reserved_number_never_56k(s: SessionView, chunk: Seq<u8>)
    ensures
        chunk_completes(s, chunk) && is_dial_cmd(chunk_line(s, chunk)) && dials_reserved(
            chunk_line(s, chunk),
        ) ==> !state_after_chunk(s, chunk).is_56k_connect,
{
}

/// The command line a session holds never exceeds the 50-byte bound,
/// whatever chunk arrives.
pub proof fn lemma_command_line_bounded(s: SessionView, chunk: Seq<u8>)
    requires
        line_wf(s.command_line),
    ensures
        state_after_chunk(s, chunk).command_line.len() <= crate::line::MAX_LINE,
{
    crate::line::lemma_line_after_wf(s.command_line, chunk);
}

/// One client session of the gateway: the accumulated command line and the
/// sticky per-session flags.
pub struct Session {
    pub command_line: Vec<u8>,
    pub is_56k_modem: bool,
    pub is_56k_connect: bool,
    pub is_webtvos: bool,
    pub verbose_results: bool,
    pub echo_enabled: bool,
}

impl View for Session {
    type V = SessionView;

    open spec fn view(&self) -> SessionView {
        SessionView {
            command_line: self.command_line@,
            is_56k_modem: self.is_56k_modem,
            is_56k_connect: self.is_56k_connect,
            is_webtvos: self.is_webtvos,
            verbose_results: self.verbose_results,
            echo_enabled: self.echo_enabled,
        }
    }
}

impl Session {
    /// The held command line obeys the accumulation rules, in particular the
    /// 50-byte bound.
    pub open spec fn wf(&self) -> bool {
        line_wf(self@.command_line)
    }

    /// A fresh session, as created for each accepted connection.
    pub fn new() -> (s: Session)
        ensures
            s@ == init_session(),
            s.wf(),
    {
        Session {
            command_line: Vec::new(),
            is_56k_modem: false,
            is_56k_connect: false,
            is_webtvos: true,
            verbose_results: true,
            echo_enabled: true,
        }
    }

    /// Apply the profile and toggle rules of the held command line to the
    /// session flags, in their fixed order.
    fn apply_toggles(&mut self)
        ensures
            final(self)@ == toggles_applied(old(self)@, old(self)@.command_line),
    {
        proof {
            reveal_strlit("S51=31");
            reveal_strlit("+MS=11,1");
            reveal_strlit("F0");
            reveal_strlit("V1");
            reveal_strlit("V0");
            reveal_strlit("E1");
            reveal_strlit("E0");
        }
        if contains_sub(self.command_line.as_slice(), lit_bytes("S51=31").as_slice())
            || contains_sub(self.command_line.as_slice(), lit_bytes("+MS=11,1").as_slice()) {
            self.is_56k_connect = false;
        }
        if contains_sub(self.command_line.as_slice(), lit_bytes("F0").as_slice()) {
            self.is_webtvos = false;
        }
        if contains_sub(self.command_line.as_slice(), lit_bytes("V1").as_slice()) {
            self.verbose_results = true;
        } else if contains_sub(self.command_line.as_slice(), lit_bytes("V0").as_slice()) {
            self.verbose_results = false;
        }
        if contains_sub(self.command_line.as_slice(), lit_bytes("E1").as_slice()) {
            self.echo_enabled = true;
        } else if contains_sub(self.command_line.as_slice(), lit_bytes("E0").as_slice()) {
            self.echo_enabled = false;
        }
    }

    /// Dispatch the held command line — firmware info, dial setup, data-mode
    /// entry, or the plain `OK` — mutating the flags and collecting the
    /// actions of the chosen path.
    fn dispatch_line(&mut self, acts: &mut Vec<Action>)
        ensures
            final(self)@ == dispatch_flags(old(self)@, old(self)@.command_line),
            acts_view(final(acts)@) == acts_view(old(acts)@) + dispatch_actions(
                old(self)@,
                old(self)@.command_line,
            ),
    {
        proof {
            reveal_strlit("I3");
            reveal_strlit("DT");
            reveal_strlit("DP");
            reveal_strlit("TD\r");
            reveal_strlit("18006138199");
            reveal_strlit("18004653537");
            reveal_strlit("V69420_WEBTV-K56_DLP");
            reveal_strlit("0");
            reveal_strlit("1");
            reveal_strlit("2");
            reveal_strlit("162");
            reveal_strlit("79");
            reveal_strlit("67");
            reveal_strlit("19");
        }
        if contains_sub(self.command_line.as_slice(), lit_bytes("I3").as_slice()) {
            self.is_56k_modem = true;
            self.is_56k_connect = true;
            let id = lit_bytes("V69420_WEBTV-K56_DLP");
            acts.push(Action::SendBytes(frame_result(id.as_slice(), false, true)));
        } else if contains_sub(self.command_line.as_slice(), lit_bytes("DT").as_slice())
            || contains_sub(self.command_line.as_slice(), lit_bytes("DP").as_slice()) {
            if contains_sub(self.command_line.as_slice(), lit_bytes("18006138199").as_slice())
                || contains_sub(
                self.command_line.as_slice(),
                lit_bytes("18004653537").as_slice(),
            ) {
                self.is_56k_connect = false;
            }
            if self.is_webtvos {
                let ok = lit_bytes("0");
                acts.push(
                    Action::SendBytes(frame_result(ok.as_slice(), self.verbose_results, false)),
                );
            } else {
                let ring = lit_bytes("2");
                acts.push(
                    Action::SendBytes(
                        frame_result(ring.as_slice(), self.verbose_results, false),
                    ),
                );
                acts.push(Action::Pause);
                let connect = lit_bytes("1");
                acts.push(
                    Action::SendBytes(
                        frame_result(connect.as_slice(), self.verbose_results, false),
                    ),
                );
                acts.push(Action::Pause);
                acts.push(Action::StartRelay);
            }
        } else if contains_sub(self.command_line.as_slice(), lit_bytes("TD\r").as_slice()) {
            let carrier = if self.is_56k_modem && self.is_56k_connect {
                lit_bytes("162")
            } else {
                lit_bytes("79")
            };
            acts.push(
                Action::SendBytes(frame_result(carrier.as_slice(), self.verbose_results, false)),
            );
            let compression = lit_bytes("67");
            acts.push(
                Action::SendBytes(
                    frame_result(compression.as_slice(), self.verbose_results, false),
                ),
            );
            let speed = lit_bytes("19");
            acts.push(
                Action::SendBytes(frame_result(speed.as_slice(), self.verbose_results, false)),
            );
            acts.push(Action::StartRelay);
        } else {
            let ok = lit_bytes("0");
            acts.push(
                Action::SendBytes(frame_result(ok.as_slice(), self.verbose_results, true)),
            );
        }
        proof {
            assert(acts_view(acts@) =~= acts_view(old(acts)@) + dispatch_actions(
                old(self)@,
                old(self)@.command_line,
            ));
        }
    }

    /// Consume one read chunk from the client: echo it if echo is on,
    /// accumulate the command line, and on a completed line apply the
    /// ordered command rules. The returned actions are exactly what the host
    /// program must carry out, in order.
    pub fn process_chunk(&mut self, chunk: &[u8]) -> (acts: Vec<Action>)
        requires
            old(self).wf(),
        ensures
            final(self).wf(),
            final(self)@ == state_after_chunk(old(self)@, chunk@),
            acts_view(acts@) == actions_of_chunk(old(self)@, chunk@),
    {
        let ghost s0 = self@;
        let mut acts: Vec<Action> = Vec::new();
        if self.echo_enabled && chunk.len() > 0 && 0x0a <= chunk[0] && chunk[0] < 0x7a {
            acts.push(Action::SendBytes(bytes_to_vec(chunk)));
        }
        accumulate(&mut self.command_line, chunk);
        let ends = chunk.len() > 0 && (chunk[chunk.len() - 1] == CR || chunk[chunk.len() - 1]
            == LF);
        if ends && self.command_line.len() > 0 {
            self.apply_toggles();
            self.dispatch_line(&mut acts);
            self.command_line.clear();
        }
        proof {
            assert(acts_view(acts@) =~= actions_of_chunk(s0, chunk@));
        }
        acts
    }
}

} // verus!
