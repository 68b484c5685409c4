//! Decisions of the control loop.
//!
//! Each iteration the caller frames the input bytes, hands the library the
//! encoder change, the time and the shared button and query state, then
//! performs the [`Actions`] returned: the library itself does no I/O.

use vstd::prelude::*;

use crate::buf::{
    buf_append, buf_clear, buf_contents, buf_new, list_names, ByteBuf, NameList, BUF_CAP,
};
use crate::button::{elapsed_millis, take_result, take_spec, Button};
use crate::decimal::{lemma_milli_text_len, milli_text, push_milli};
use crate::error::AppError;
use crate::line::{fill_until_eol, taken, takes_eol};
use crate::model::{
    clamp, expire_spec, has_output_spec, strictly_sorted, reading_of, rotary_spec, set_cmds_text, start_edit,
    with_query_reading, InfoScreen, MAX_READING, PSChannel, ProjectFiles, Reading, LOAD_PRESS, PS,
    UI,
};
use crate::protocol::{command_text, query_request, query_text, Channel, Command, Query};

verus! {

/// Shortest press, in milliseconds, that a button reports at all.
pub const MIN_PRESS: u32 = 60;

/// Pause button presses of at least this many milliseconds toggle the
/// outputs.
pub const ON_OFF_PRESS: u32 = 100;

/// Pause button presses of at least this many milliseconds open the file
/// browser.
pub const FILES_PRESS: u32 = 700;

/// Hold time, in milliseconds, past which the encoder button counts as held
/// for coarse steps.
pub const HOLD_PRESS: u32 = 60;

/// What the caller performs after one iteration, in this order.
pub struct Actions {
    /// Bytes to write to the power supply's serial line, then flush.
    pub uart_out: ByteBuf,
    /// Bytes to write to the USB host.
    pub usb_out: ByteBuf,
    /// List the SD card's files and hand them to
    /// [`IdleLoop::enter_project_files`].
    pub list_files: bool,
    /// Stream this file to the serial line, then call
    /// [`IdleLoop::finish_loading`].
    pub load_file: Option<ByteBuf>,
}

/// The text of a reading as echoed to the USB host.
pub open spec fn reading_text(r: Reading) -> Seq<u8> {
    match r {
        Reading::Milli(v) => milli_text(v as int),
        Reading::Flag(b) => seq![if b { 49u8 } else { 48u8 }],
    }
}

/// `"<QUERY>\t<value>\r\n"`, as echoed to the USB host for an answered
/// query.
pub open spec fn echo_text(q: Query, r: Reading) -> Seq<u8> {
    query_text(q) + seq![9u8] + reading_text(r) + seq![13u8, 10]
}

/// Appends the reading's text as echoed to the USB host.
pub fn push_reading(out: &mut ByteBuf, r: Reading)
    requires
        r matches Reading::Milli(v) ==> v > i64::MIN,
        buf_contents(*old(out)).len() + reading_text(r).len() <= BUF_CAP,
    ensures
        buf_contents(*final(out)) == buf_contents(*old(out)) + reading_text(r),
{
    match r {
        Reading::Milli(v) => push_milli(out, v),
        Reading::Flag(b) => {
            buf_append(out, if b { 49 } else { 48 });
            assert(buf_contents(*out) =~= buf_contents(*old(out)) + reading_text(r));
        },
    }
}

/// The echo line for query `q` answered by `r`.
pub fn echo_line(q: &Query, r: Reading) -> (out: ByteBuf)
    requires
        r matches Reading::Milli(v) ==> -MAX_READING < v < MAX_READING,
    ensures
        buf_contents(out) == echo_text(*q, r),
{
    proof {
        if let Reading::Milli(v) = r {
            lemma_milli_text_len(v as int);
        }
    }
    let mut out = q.to_str();
    buf_append(&mut out, 9);
    push_reading(&mut out, r);
    buf_append(&mut out, 13);
    buf_append(&mut out, 10);
    assert(buf_contents(out) =~= echo_text(*q, r));
    out
}

/// Whether the serial-line step answers an outstanding, sent query with a
/// complete line.
pub open spec fn proto_answers(q: Option<Query>, sent: bool, eol: bool) -> bool {
    q is Some && sent && eol
}

/// The info screen after the serial-line step.
pub open spec fn proto_screen(
    is: InfoScreen,
    q: Option<Query>,
    sent: bool,
    eol: bool,
    line: Seq<u8>,
    now: u32,
) -> InfoScreen {
    if proto_answers(q, sent, eol) {
        match reading_of(q->Some_0.header, line) {
            Some(v) => with_query_reading(expire_spec(is, now), q->Some_0, v),
            None => expire_spec(is, now),
        }
    } else {
        is
    }
}

/// The outstanding query after the serial-line step.
pub open spec fn proto_query(q: Option<Query>, sent: bool, eol: bool) -> Option<Query> {
    if proto_answers(q, sent, eol) {
        None
    } else {
        q
    }
}

/// Whether the outstanding query was sent, after the serial-line step.
pub open spec fn proto_sent(q: Option<Query>, sent: bool, eol: bool) -> bool {
    q is Some && !proto_answers(q, sent, eol)
}

/// The pending command after the serial-line step: sent when no query is
/// outstanding.
pub open spec fn proto_cmd(q: Option<Query>, cmd: Seq<u8>) -> Seq<u8> {
    if q is None {
        Seq::<u8>::empty()
    } else {
        cmd
    }
}

/// What the serial-line step writes to the serial line.
pub open spec fn proto_uart(q: Option<Query>, sent: bool, cmd: Seq<u8>) -> Seq<u8> {
    match q {
        None => cmd,
        Some(qq) => if !sent {
            query_request(qq)
        } else {
            Seq::<u8>::empty()
        },
    }
}

/// What the serial-line step echoes to the USB host.
pub open spec fn proto_usb(q: Option<Query>, sent: bool, eol: bool, line: Seq<u8>) -> Seq<u8> {
    if proto_answers(q, sent, eol) {
        match reading_of(q->Some_0.header, line) {
            Some(v) => echo_text(q->Some_0, v),
            None => Seq::<u8>::empty(),
        }
    } else {
        Seq::<u8>::empty()
    }
}

/// The error that the serial-line step reports: a response that does not
/// parse.
pub open spec fn proto_err(q: Option<Query>, sent: bool, eol: bool, line: Seq<u8>) -> Option<
    AppError,
> {
    if proto_answers(q, sent, eol) && reading_of(q->Some_0.header, line) is None {
        Some(AppError::ParseError)
    } else {
        None
    }
}

/// Whether a pause button press toggles the outputs.
pub open spec fn toggles_outputs(pause: Option<u32>) -> bool {
    pause matches Some(d) && ON_OFF_PRESS <= d < FILES_PRESS
}

/// Whether a pause button press opens the file browser.
pub open spec fn opens_files(pause: Option<u32>) -> bool {
    pause matches Some(d) && d >= FILES_PRESS
}

/// The screen after the on/off button: output states unknown once both
/// were known.
pub open spec fn on_off_screen(is: InfoScreen) -> InfoScreen {
    match has_output_spec(is) {
        Some(_) => InfoScreen {
            ch1: PSChannel { out: None, ..is.ch1 },
            ch2: PSChannel { out: None, ..is.ch2 },
            ..is
        },
        None => is,
    }
}

/// The pending command after the on/off button: replaced by commands that
/// switch both outputs off when any is on, else on.
pub open spec fn on_off_cmd(is: InfoScreen, cmd: Seq<u8>) -> Seq<u8> {
    match has_output_spec(is) {
        Some(ha) => command_text(Command::Out { ch: Channel::Ch1, on: !ha }) + command_text(
            Command::Out { ch: Channel::Ch2, on: !ha },
        ),
        None => cmd,
    }
}

/// The screen before the encoder is handled: stale edits dropped, then the
/// pause button handled.
pub open spec fn pre_rotary_screen(is: InfoScreen, pause: Option<u32>, now: u32) -> InfoScreen {
    let is1 = expire_spec(is, now);
    if toggles_outputs(pause) {
        on_off_screen(is1)
    } else {
        is1
    }
}

/// The info screen after the buttons and the encoder.
pub open spec fn input_screen(
    is: InfoScreen,
    pause: Option<u32>,
    enc: Option<u32>,
    held: bool,
    change: i16,
    now: u32,
) -> InfoScreen {
    rotary_spec(pre_rotary_screen(is, pause, now), enc, held, change, now)
}

/// The pending command after the buttons and the encoder: an on/off press,
/// then an edit, each replace it.
pub open spec fn input_cmd(
    is: InfoScreen,
    cmd: Seq<u8>,
    pause: Option<u32>,
    enc: Option<u32>,
    held: bool,
    change: i16,
    now: u32,
) -> Seq<u8> {
    let is1 = expire_spec(is, now);
    let is2 = pre_rotary_screen(is, pause, now);
    let cmd2 = if toggles_outputs(pause) {
        on_off_cmd(is1, cmd)
    } else {
        cmd
    };
    if change != 0 && start_edit(is2, now) is Some {
        set_cmds_text(rotary_spec(is2, enc, held, change, now).uich->Some_0, is2.vsel)
    } else {
        cmd2
    }
}

/// The shown error after `e` was raised: the first error stays.
pub open spec fn sticky(shown: Option<AppError>, e: Option<AppError>) -> Option<AppError> {
    if shown is None {
        e
    } else {
        shown
    }
}

/// Handles the buttons and the encoder on the info screen, given the pause
/// and encoder button presses taken this iteration, whether the encoder
/// button is held, and the encoder's change. Returns whether the file
/// browser is to be opened.
pub fn handle_input(
    is: &mut InfoScreen,
    cmdbuf: &mut ByteBuf,
    pause_press: Option<u32>,
    encoder_press: Option<u32>,
    encoder_held: bool,
    encoder_change: i16,
    now: u32,
) -> (list_files: bool)
    requires
        old(is).wf(),
    ensures
        final(is).wf(),
        list_files == opens_files(pause_press),
        *final(is) == input_screen(
            *old(is),
            pause_press,
            encoder_press,
            encoder_held,
            encoder_change,
            now,
        ),
        buf_contents(*final(cmdbuf)) == input_cmd(
            *old(is),
            buf_contents(*old(cmdbuf)),
            pause_press,
            encoder_press,
            encoder_held,
            encoder_change,
            now,
        ),
{
    is.expire_edit(now);
    let mut list_files = false;
    match pause_press {
        Some(d) => {
            if d >= FILES_PRESS {
                list_files = true;
            } else if d >= ON_OFF_PRESS {
                is.handle_on_off_button(cmdbuf);
            }
        },
        None => {},
    }
    is.handle_rotary_encoder(encoder_press, encoder_held, encoder_change, now, cmdbuf);
    list_files
}

/// The control loop's own state: the machine state, the pending command,
/// and the lines being framed from the USB host and from the serial line.
pub struct IdleLoop {
    pub ps: PS,
    /// Whether the outstanding query was written to the serial line.
    pub query_sent: bool,
    /// The pending command text; a new edit replaces it.
    pub cmdbuf: ByteBuf,
    pub usb_line_buf: ByteBuf,
    pub usb_eol: bool,
    pub uart_line_buf: ByteBuf,
    pub uart_eol: bool,
}

impl IdleLoop {
    pub open spec fn wf(&self) -> bool {
        self.ps.wf()
    }

    /// A loop in the loading state with empty buffers.
    pub fn new() -> (r: IdleLoop)
        ensures
            r.wf(),
            r.ps.ui is UILoading,
            r.ps.error is None,
            !r.query_sent,
            buf_contents(r.cmdbuf).len() == 0,
            buf_contents(r.usb_line_buf).len() == 0,
            buf_contents(r.uart_line_buf).len() == 0,
            !r.usb_eol,
            !r.uart_eol,
    {
        IdleLoop {
            ps: PS::new(),
            query_sent: false,
            cmdbuf: buf_new(),
            usb_line_buf: buf_new(),
            usb_eol: false,
            uart_line_buf: buf_new(),
            uart_eol: false,
        }
    }

    /// Frames what arrived from the USB host and from the serial line. The
    /// first complete line from the USB host on the info screen switches to
    /// the USB bridge for good: the outstanding query is dropped, and the
    /// result is `true`, after which the caller drains the serial line with
    /// [`IdleLoop::drain_uart_rx`]. A line from the USB host in a state that
    /// takes none is dropped.
    pub fn try_read_lines(
        &mut self,
        usb_rx_buf: &mut ByteBuf,
        uart_rx_buf: &mut ByteBuf,
        query: &mut Option<Query>,
    ) -> (switched: bool)
        requires
            old(self).wf(),
        ensures
            final(self).wf(),
            ({
                let l = buf_contents(old(self).uart_line_buf);
                let d = buf_contents(*old(uart_rx_buf));
                let n = taken(l.len() as int, d);
                &&& buf_contents(final(self).uart_line_buf) == l + d.subrange(0, n)
                &&& buf_contents(*final(uart_rx_buf)) == d.subrange(n, d.len() as int)
                &&& final(self).uart_eol == takes_eol(l.len() as int, d)
            }),
            ({
                let l = buf_contents(old(self).usb_line_buf);
                let d = buf_contents(*old(usb_rx_buf));
                let n = taken(l.len() as int, d);
                let eol = takes_eol(l.len() as int, d);
                &&& buf_contents(*final(usb_rx_buf)) == d.subrange(n, d.len() as int)
                &&& if eol && !(old(self).ps.ui is InfoScreen || old(self).ps.ui is USSBSerial) {
                    buf_contents(final(self).usb_line_buf).len() == 0 && !final(self).usb_eol
                } else {
                    buf_contents(final(self).usb_line_buf) == l + d.subrange(0, n)
                        && final(self).usb_eol == eol
                }
                &&& switched == (old(self).ps.ui is InfoScreen && eol)
            }),
            !switched ==> final(self).ps.ui == old(self).ps.ui,
            switched ==> final(self).ps.ui is USSBSerial && *final(query) is None
                && !final(self).query_sent,
            !switched ==> *final(query) == *old(query) && final(self).query_sent == old(self).query_sent,
            final(self).ps.error == old(self).ps.error,
            final(self).cmdbuf == old(self).cmdbuf,
    {
        self.usb_eol = fill_until_eol(&mut self.usb_line_buf, usb_rx_buf);
        self.uart_eol = fill_until_eol(&mut self.uart_line_buf, uart_rx_buf);
        let mut switched = false;
        if self.usb_eol {
            match self.ps.ui {
                UI::InfoScreen(_) => {
                    self.ps.set_ui_usb_serial();
                    *query = None;
                    self.query_sent = false;
                    switched = true;
                },
                UI::USSBSerial => {},
                _ => {
                    buf_clear(&mut self.usb_line_buf);
                    self.usb_eol = false;
                },
            }
        }
        switched
    }

    /// One round of draining the serial line: whatever was framed or waits
    /// in `uart_rx_buf` up to the next line end is thrown away.
    pub fn drain_uart_rx(&mut self, uart_rx_buf: &mut ByteBuf)
        ensures
            buf_contents(final(self).uart_line_buf).len() == 0,
            !final(self).uart_eol,
            final(self).usb_line_buf == old(self).usb_line_buf,
            final(self).usb_eol == old(self).usb_eol,
            ({
                let d = buf_contents(*old(uart_rx_buf));
                buf_contents(*final(uart_rx_buf)) == d.subrange(taken(0, d), d.len() as int)
            }),
            final(self).ps == old(self).ps,
            final(self).query_sent == old(self).query_sent,
            final(self).cmdbuf == old(self).cmdbuf,
    {
        buf_clear(&mut self.uart_line_buf);
        let _ = fill_until_eol(&mut self.uart_line_buf, uart_rx_buf);
        buf_clear(&mut self.uart_line_buf);
        self.uart_eol = false;
    }

    /// Ends a loading phase (boot, or a project file sent): the info screen
    /// starts afresh.
    pub fn finish_loading(&mut self)
        ensures
            final(self).ps.ui matches UI::InfoScreen(is) && is == InfoScreen::new_spec(),
            final(self).ps.error == old(self).ps.error,
    {
        self.ps.set_ui_info_screen();
    }

    /// Opens the file browser on `fnames`, the SD card's root directory
    /// (sorted, each name once, first entry selected), and drops the
    /// outstanding query. An empty or too long list is shown as an
    /// error and the state is left as it was.
    pub fn enter_project_files(&mut self, fnames: NameList, query: &mut Option<Query>)
        requires
            old(self).wf(),
        ensures
            final(self).wf(),
            list_names(fnames).len() > 0 ==> {
                &&& final(self).ps.ui matches UI::ProjectFiles(pf) && pf.selected == 0
                    && strictly_sorted(list_names(pf.fnames)) && forall|x: Seq<u8>|
                    list_names(pf.fnames).contains(x) <==> list_names(fnames).contains(x)
                &&& *final(query) is None
                &&& !final(self).query_sent
                &&& final(self).ps.error == old(self).ps.error
            },
            list_names(fnames).len() == 0 ==> final(self).ps.ui == old(self).ps.ui && *final(query) == *old(query) && final(self).ps.error == (if old(self).ps.error is None {
                Some(AppError::ProjectFileError)
            } else {
                old(self).ps.error
            }),
    {
        match ProjectFiles::new(fnames) {
            Ok(pf) => {
                self.ps.set_ui_project_files(pf);
                *query = None;
                self.query_sent = false;
            },
            Err(e) => self.ps.show_error(e),
        }
    }

    /// The serial-line side of the info screen. With no query outstanding
    /// the pending command is sent. An outstanding query that was not sent
    /// yet is sent. A complete line from the serial line is always used up:
    /// it is dropped unless it answers the sent query. The line that answers a sent
    /// query is parsed into the screen's readings and echoed to the USB
    /// host; the query is then done.
    pub fn protocol_step(&mut self, is: &mut InfoScreen, query: &mut Option<Query>, now: u32) -> (r: (
        ByteBuf,
        ByteBuf,
        Option<AppError>,
    ))
        requires
            old(is).wf(),
        ensures
            final(is).wf(),
            final(self).ps == old(self).ps,
            final(self).usb_line_buf == old(self).usb_line_buf,
            final(self).usb_eol == old(self).usb_eol,
            ({
                let q = *old(query);
                let sent = old(self).query_sent;
                let eol = old(self).uart_eol;
                let line = buf_contents(old(self).uart_line_buf);
                &&& *final(is) == proto_screen(*old(is), q, sent, eol, line, now)
                &&& *final(query) == proto_query(q, sent, eol)
                &&& final(self).query_sent == proto_sent(q, sent, eol)
                &&& buf_contents(final(self).cmdbuf) == proto_cmd(q, buf_contents(old(self).cmdbuf))
                &&& buf_contents(r.0) == proto_uart(q, sent, buf_contents(old(self).cmdbuf))
                &&& buf_contents(r.1) == proto_usb(q, sent, eol, line)
                &&& r.2 == proto_err(q, sent, eol, line)
                &&& if eol {
                    buf_contents(final(self).uart_line_buf).len() == 0 && !final(self).uart_eol
                } else {
                    final(self).uart_line_buf == old(self).uart_line_buf && final(self).uart_eol
                        == eol
                }
            }),
    {
        let mut uart_out = buf_new();
        let mut usb_out = buf_new();
        let mut err: Option<AppError> = None;
        match *query {
            None => {
                core::mem::swap(&mut uart_out, &mut self.cmdbuf);
                self.query_sent = false;
                if self.uart_eol {
                    buf_clear(&mut self.uart_line_buf);
                    self.uart_eol = false;
                }
            },
            Some(q) => {
                if !self.query_sent {
                    q.write_serial_cmd_buf(&mut uart_out);
                    self.query_sent = true;
                    if self.uart_eol {
                        buf_clear(&mut self.uart_line_buf);
                        self.uart_eol = false;
                    }
                } else if self.uart_eol {
                    *query = None;
                    self.query_sent = false;
                    let res = is.set_query_result(&q, &self.uart_line_buf, now);
                    buf_clear(&mut self.uart_line_buf);
                    self.uart_eol = false;
                    match res {
                        Ok(v) => {
                            usb_out = echo_line(&q, v);
                        },
                        Err(e) => {
                            err = Some(e);
                        },
                    }
                }
            },
        }
        (uart_out, usb_out, err)
    }

    /// Whether the encoder button counts as held for coarse steps.
    pub open spec fn encoder_held(b: Button, now: u32) -> bool {
        !b.last_state && elapsed_millis(now, b.last_change) > HOLD_PRESS
    }

    /// One iteration of the control loop, after [`IdleLoop::try_read_lines`].
    ///
    /// On the USB bridge each complete line is forwarded as it is, from the
    /// serial line to the USB host and from the USB host to the serial line.
    /// On the info screen the presses of both buttons are taken (a turn of
    /// the encoder while its button is held cancels that press), the inputs
    /// are handled, then the serial-line side runs. In the file browser the
    /// encoder moves the selection and a press picks a file to load. Errors
    /// are kept as the shown error, the first one staying.
    pub fn handle_state(
        &mut self,
        encoder_change: i16,
        now: u32,
        btn_pause: &mut Button,
        btn_encoder: &mut Button,
        query: &mut Option<Query>,
    ) -> (a: Actions)
        requires
            old(self).wf(),
        ensures
            final(self).wf(),
            if old(self).uart_eol && (old(self).ps.ui is USSBSerial || old(self).ps.ui is InfoScreen) {
                buf_contents(final(self).uart_line_buf).len() == 0 && !final(self).uart_eol
            } else {
                final(self).uart_line_buf == old(self).uart_line_buf && final(self).uart_eol == old(
                    self).uart_eol
            },
            if old(self).usb_eol && old(self).ps.ui is USSBSerial {
                buf_contents(final(self).usb_line_buf).len() == 0 && !final(self).usb_eol
            } else {
                final(self).usb_line_buf == old(self).usb_line_buf && final(self).usb_eol == old(
                    self).usb_eol
            },
            !(old(self).ps.ui is InfoScreen) ==> final(self).cmdbuf == old(self).cmdbuf
                && final(self).query_sent == old(self).query_sent,
            match old(self).ps.ui {
                UI::USSBSerial => {
                    &&& final(self).ps.ui == old(self).ps.ui
                    &&& final(self).ps.error == old(self).ps.error
                    &&& buf_contents(a.usb_out) == if old(self).uart_eol {
                        buf_contents(old(self).uart_line_buf)
                    } else {
                        Seq::<u8>::empty()
                    }
                    &&& buf_contents(a.uart_out) == if old(self).usb_eol {
                        buf_contents(old(self).usb_line_buf)
                    } else {
                        Seq::<u8>::empty()
                    }
                    &&& old(self).uart_eol ==> buf_contents(final(self).uart_line_buf).len() == 0
                        && !final(self).uart_eol
                    &&& old(self).usb_eol ==> buf_contents(final(self).usb_line_buf).len() == 0
                        && !final(self).usb_eol
                    &&& !a.list_files && a.load_file is None
                    &&& *final(btn_pause) == *old(btn_pause)
                    &&& *final(btn_encoder) == *old(btn_encoder)
                    &&& *final(query) == *old(query)
                },
                UI::InfoScreen(is0) => {
                    let pause = take_result(*old(btn_pause), MIN_PRESS);
                    let enc = take_result(*old(btn_encoder), MIN_PRESS);
                    let held = Self::encoder_held(*old(btn_encoder), now);
                    let is1 = input_screen(is0, pause, enc, held, encoder_change, now);
                    let cmd1 = input_cmd(
                        is0,
                        buf_contents(old(self).cmdbuf),
                        pause,
                        enc,
                        held,
                        encoder_change,
                        now,
                    );
                    let q = *old(query);
                    let sent = old(self).query_sent;
                    let eol = old(self).uart_eol;
                    let line = buf_contents(old(self).uart_line_buf);
                    &&& *final(btn_pause) == take_spec(*old(btn_pause), MIN_PRESS)
                    &&& *final(btn_encoder) == if encoder_change != 0 && held {
                        Button { ignore_last_press: true, ..take_spec(*old(btn_encoder), MIN_PRESS) }
                    } else {
                        take_spec(*old(btn_encoder), MIN_PRESS)
                    }
                    &&& a.list_files == opens_files(pause)
                    &&& a.load_file is None
                    &&& final(self).ps.ui == UI::InfoScreen(
                        proto_screen(is1, q, sent, eol, line, now),
                    )
                    &&& *final(query) == proto_query(q, sent, eol)
                    &&& final(self).query_sent == proto_sent(q, sent, eol)
                    &&& buf_contents(final(self).cmdbuf) == proto_cmd(q, cmd1)
                    &&& buf_contents(a.uart_out) == proto_uart(q, sent, cmd1)
                    &&& buf_contents(a.usb_out) == proto_usb(q, sent, eol, line)
                    &&& final(self).ps.error == sticky(
                        old(self).ps.error,
                        proto_err(q, sent, eol, line),
                    )
                },
                UI::ProjectFiles(pf0) => {
                    let enc = take_result(*old(btn_encoder), MIN_PRESS);
                    let sel = clamp(pf0.selected + encoder_change, 0, list_names(pf0.fnames).len() as int);
                    &&& *final(btn_encoder) == take_spec(*old(btn_encoder), MIN_PRESS)
                    &&& *final(btn_pause) == *old(btn_pause)
                    &&& *final(query) == *old(query)
                    &&& !a.list_files
                    &&& buf_contents(a.uart_out).len() == 0
                    &&& buf_contents(a.usb_out).len() == 0
                    &&& if enc matches Some(d) && d >= LOAD_PRESS && sel < list_names(pf0.fnames).len() {
                        &&& a.load_file matches Some(name) && buf_contents(name) == list_names(pf0.fnames)[sel]
                        &&& final(self).ps.ui is UILoading
                        &&& final(self).ps.error == old(self).ps.error
                    } else {
                        &&& a.load_file is None
                        &&& final(self).ps.ui matches UI::ProjectFiles(pf) && pf.selected == sel
                            && pf.fnames == pf0.fnames
                        &&& final(self).ps.error == sticky(
                            old(self).ps.error,
                            if enc matches Some(d) && d >= LOAD_PRESS {
                                Some(AppError::ProjectFileError)
                            } else {
                                None
                            },
                        )
                    }
                },
                UI::UILoading(_) => {
                    &&& final(self).ps.ui == old(self).ps.ui
                    &&& final(self).ps.error == old(self).ps.error
                    &&& buf_contents(a.uart_out).len() == 0 && buf_contents(a.usb_out).len() == 0
                    &&& !a.list_files && a.load_file is None
                    &&& *final(btn_pause) == *old(btn_pause)
                    &&& *final(btn_encoder) == *old(btn_encoder)
                    &&& *final(query) == *old(query)
                },
            },
    {
        let mut a = Actions {
            uart_out: buf_new(),
            usb_out: buf_new(),
            list_files: false,
            load_file: None,
        };
        let mut ui = UI::USSBSerial;
        core::mem::swap(&mut ui, &mut self.ps.ui);
        match ui {
            UI::USSBSerial => {
                if self.uart_eol {
                    core::mem::swap(&mut a.usb_out, &mut self.uart_line_buf);
                    self.uart_eol = false;
                }
                if self.usb_eol {
                    core::mem::swap(&mut a.uart_out, &mut self.usb_line_buf);
                    self.usb_eol = false;
                }
                self.ps.ui = UI::USSBSerial;
            },
            UI::InfoScreen(is0) => {
                let mut is = is0;
                let pause = btn_pause.take_last_press(MIN_PRESS);
                let enc = btn_encoder.take_last_press(MIN_PRESS);
                let held = btn_encoder.is_pressed(HOLD_PRESS, now);
                if encoder_change != 0 && held {
                    btn_encoder.cancel_last_press();
                }
                a.list_files = handle_input(
                    &mut is,
                    &mut self.cmdbuf,
                    pause,
                    enc,
                    held,
                    encoder_change,
                    now,
                );
                let (uart_out, usb_out, err) = self.protocol_step(&mut is, query, now);
                a.uart_out = uart_out;
                a.usb_out = usb_out;
                self.ps.ui = UI::InfoScreen(is);
                match err {
                    Some(e) => self.ps.show_error(e),
                    None => {},
                }
            },
            UI::ProjectFiles(pf0) => {
                let mut pf = pf0;
                let enc = btn_encoder.take_last_press(MIN_PRESS);
                match pf.handle_rotary_encoder(enc, encoder_change) {
                    Ok(Some(name)) => {
                        a.load_file = Some(name);
                        self.ps.ui = UI::UILoading("LOADING");
                    },
                    Ok(None) => {
                        self.ps.ui = UI::ProjectFiles(pf);
                    },
                    Err(e) => {
                        self.ps.ui = UI::ProjectFiles(pf);
                        self.ps.show_error(e);
                    },
                }
            },
            UI::UILoading(label) => {
                self.ps.ui = UI::UILoading(label);
            },
        }
        a
    }
}

} // verus!
