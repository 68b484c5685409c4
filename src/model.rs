//! UI model: channel readings, setpoint editing and file browsing.
//!
//! Voltages and currents are held in thousandths (millivolts, milliamperes).

use vstd::prelude::*;

use crate::buf::{
    buf_clear, buf_contents, buf_copy, buf_eq, list_get, list_len, list_names, list_new, list_push,
    ByteBuf, NameList, BUF_CAP, LIST_CAP,
};
use crate::consts::SYS_FREQ;
use crate::decimal::{decimal_milli, unsigned_int};
use crate::error::AppError;
use crate::line::{parse_flag, parse_milli, strip_ws};
use crate::protocol::{command_text, lemma_command_text_len, Channel, ChannelHeader, Command, Query, MAX_CMD_MILLI};

verus! {

/// Bound on the magnitude of a reading, in thousandths.
pub const MAX_READING: i64 = 1_000_000_000_000;

/// Highest voltage setpoint, in millivolts.
pub const VSET_MAX: i64 = 20_000;

/// Highest current setpoint, in milliamperes.
pub const ISET_MAX: i64 = 10_000;

/// Highest current setpoint while the voltage setpoint is above
/// [`VSET_HIGH`], in milliamperes.
pub const ISET_MAX_HIGH_V: i64 = 4_000;

/// Voltage setpoint above which the current is capped lower, in millivolts.
pub const VSET_HIGH: i64 = 7_000;

/// Encoder button presses longer than this toggle the edited variable; shorter
/// ones cycle the selected channel. In milliseconds.
pub const VAR_TOGGLE_PRESS: u32 = 200;

/// Encoder button presses of at least this long load the selected file. In
/// milliseconds.
pub const LOAD_PRESS: u32 = 100;

/// Cycles after the last edit at which an edit buffer is stale.
pub const EDIT_TIMEOUT_CYCLES: u32 = 3 * SYS_FREQ;

/// One reading of the power supply.
#[derive(Clone, Copy, Debug, PartialEq, Eq, Structural)]
pub enum Reading {
    /// A voltage or a current, in thousandths.
    Milli(i64),
    /// Whether an output is on.
    Flag(bool),
}

/// Readings of one channel; each is `None` until a query answers it.
#[derive(Clone, Copy, Debug, PartialEq, Eq, Structural)]
pub struct PSChannel {
    pub vset: Option<i64>,
    pub vout: Option<i64>,
    pub iset: Option<i64>,
    pub iout: Option<i64>,
    pub out: Option<bool>,
}

/// Provisional setpoints of one channel while the user edits them.
#[derive(Clone, Copy, Debug, PartialEq, Eq, Structural)]
pub struct UIChannel {
    pub vset: i64,
    pub iset: i64,
}

/// Setpoints of both channels while the encoder is turning; dropped after a
/// timeout, after which the queried values show again (a set and query round
/// trip over the serial link is slow).
#[derive(Clone, Copy, Debug, PartialEq, Eq, Structural)]
pub struct UIChannels {
    pub ch1: UIChannel,
    pub ch2: UIChannel,
    pub last_change: u32,
}

/// Which channels a turn of the encoder changes.
#[derive(Clone, Copy, Debug, PartialEq, Eq, Structural)]
pub enum ChSelected {
    Both,
    Ch1,
    Ch2,
}

/// Which setpoint a turn of the encoder changes.
#[derive(Clone, Copy, Debug, PartialEq, Eq, Structural)]
pub enum VarSelected {
    V,
    I,
}

/// The regular screen: readings of both channels and the edit state.
#[derive(Clone, Copy, Debug, PartialEq, Eq, Structural)]
pub struct InfoScreen {
    pub ch1: PSChannel,
    pub ch2: PSChannel,
    pub uich: Option<UIChannels>,
    pub vsel: VarSelected,
    pub chsel: ChSelected,
}

// ---------------------------------------------------------------------------
// Readings

pub open spec fn reading_ok(r: Option<i64>) -> bool {
    match r {
        Some(v) => -MAX_READING < v < MAX_READING,
        None => true,
    }
}

impl PSChannel {
    pub open spec fn wf(&self) -> bool {
        reading_ok(self.vset) && reading_ok(self.vout) && reading_ok(self.iset) && reading_ok(
            self.iout,
        )
    }
}

/// What a response line gives for a query with header `h`, if it parses.
pub open spec fn reading_of(h: ChannelHeader, line: Seq<u8>) -> Option<Reading> {
    match h {
        ChannelHeader::Out => match unsigned_int(strip_ws(line)) {
            Some(v) => Some(Reading::Flag(v != 0)),
            None => None,
        },
        _ => match decimal_milli(strip_ws(line)) {
            Some(v) => Some(Reading::Milli(v as i64)),
            None => None,
        },
    }
}

pub open spec fn reading_fits(h: ChannelHeader, r: Reading) -> bool {
    match h {
        ChannelHeader::Out => r is Flag,
        _ => match r {
            Reading::Milli(v) => -MAX_READING < v < MAX_READING,
            Reading::Flag(_) => false,
        },
    }
}

/// The channel after storing reading `r` for header `h`.
pub open spec fn with_reading(c: PSChannel, h: ChannelHeader, r: Reading) -> PSChannel {
    match (h, r) {
        (ChannelHeader::Vset, Reading::Milli(v)) => PSChannel { vset: Some(v), ..c },
        (ChannelHeader::Iset, Reading::Milli(v)) => PSChannel { iset: Some(v), ..c },
        (ChannelHeader::Vout, Reading::Milli(v)) => PSChannel { vout: Some(v), ..c },
        (ChannelHeader::Iout, Reading::Milli(v)) => PSChannel { iout: Some(v), ..c },
        (ChannelHeader::Out, Reading::Flag(b)) => PSChannel { out: Some(b), ..c },
        _ => c,
    }
}

/// Parses a response line as the reading that a query with header `h` asks
/// for: an on/off flag for `Out`, a decimal for the others.
pub fn parse_reading(h: ChannelHeader, line: &ByteBuf) -> (r: Result<Reading, AppError>)
    ensures
        match reading_of(h, buf_contents(*line)) {
            Some(v) => r == Ok::<Reading, AppError>(v) && reading_fits(h, v),
            None => r == Err::<Reading, AppError>(AppError::ParseError),
        },
{
    match h {
        ChannelHeader::Out => match parse_flag(line) {
            Ok(b) => {
                Ok(Reading::Flag(b))
            },
            Err(e) => Err(e),
        },
        _ => match parse_milli(line) {
            Ok(v) => {
                Ok(Reading::Milli(v))
            },
            Err(e) => Err(e),
        },
    }
}

impl PSChannel {
    /// A channel with no readings yet.
    pub fn new() -> (r: PSChannel)
        ensures
            r.vset is None && r.vout is None && r.iset is None && r.iout is None && r.out is None,
    {
        PSChannel { vset: None, vout: None, iset: None, iout: None, out: None }
    }

    /// Stores the reading that answers a query with header `h`.
    pub fn set_reading(&mut self, h: ChannelHeader, r: Reading)
        ensures
            *final(self) == with_reading(*old(self), h, r),
    {
        match (h, r) {
            (ChannelHeader::Vset, Reading::Milli(v)) => self.vset = Some(v),
            (ChannelHeader::Iset, Reading::Milli(v)) => self.iset = Some(v),
            (ChannelHeader::Vout, Reading::Milli(v)) => self.vout = Some(v),
            (ChannelHeader::Iout, Reading::Milli(v)) => self.iout = Some(v),
            (ChannelHeader::Out, Reading::Flag(b)) => self.out = Some(b),
            _ => {},
        }
    }

    /// Parses a response line to a query with header `h` and stores the
    /// reading; on a parse error the channel is left as it was.
    pub fn set_query_result(&mut self, h: ChannelHeader, line: &ByteBuf) -> (r: Result<
        Reading,
        AppError,
    >)
        ensures
            match reading_of(h, buf_contents(*line)) {
                Some(v) => r == Ok::<Reading, AppError>(v) && reading_fits(h, v) && *final(self)
                    == with_reading(*old(self), h, v),
                None => r == Err::<Reading, AppError>(AppError::ParseError) && *final(self) == *old(self),
            },
    {
        match parse_reading(h, line) {
            Ok(v) => {
                self.set_reading(h, v);
                Ok(v)
            },
            Err(e) => Err(e),
        }
    }
}

// ---------------------------------------------------------------------------
// Setpoint editing

pub open spec fn clamp(x: int, lo: int, hi: int) -> int {
    if x < lo {
        lo
    } else if x > hi {
        hi
    } else {
        x
    }
}

/// `x` rounded to the nearest hundred, halves away from zero.
pub open spec fn round_tenth(x: int) -> int {
    if x >= 0 {
        ((x + 50) / 100) * 100
    } else {
        -(((-x + 50) / 100) * 100)
    }
}

/// Setpoints `v`, `i` brought into the safe ranges: voltage within
/// `[0, VSET_MAX]`, current within `[0, ISET_MAX]`, or `[0, ISET_MAX_HIGH_V]`
/// when the voltage is above `VSET_HIGH`.
pub open spec fn fixed_channel(v: int, i: int) -> UIChannel {
    let v2 = clamp(v, 0, VSET_MAX as int);
    let imax = if v2 > VSET_HIGH {
        ISET_MAX_HIGH_V
    } else {
        ISET_MAX
    };
    UIChannel { vset: v2 as i64, iset: clamp(i, 0, imax as int) as i64 }
}

/// Whether setpoints are within the safe ranges.
pub open spec fn channel_in_range(c: UIChannel) -> bool {
    0 <= c.vset <= VSET_MAX && 0 <= c.iset <= (if c.vset > VSET_HIGH {
        ISET_MAX_HIGH_V
    } else {
        ISET_MAX
    })
}

pub open spec fn channels_in_range(u: UIChannels) -> bool {
    channel_in_range(u.ch1) && channel_in_range(u.ch2)
}

/// Channel `c` after moving the selected setpoint by `d` and bringing both
/// into range.
pub open spec fn edited_channel(c: UIChannel, vsel: VarSelected, d: int) -> UIChannel {
    match vsel {
        VarSelected::V => fixed_channel(c.vset + d, c.iset as int),
        VarSelected::I => fixed_channel(c.vset as int, c.iset + d),
    }
}

pub open spec fn selects(chsel: ChSelected, ch: Channel) -> bool {
    match chsel {
        ChSelected::Both => true,
        ChSelected::Ch1 => ch == Channel::Ch1,
        ChSelected::Ch2 => ch == Channel::Ch2,
    }
}

/// The edit buffer after moving the selected setpoint of the selected
/// channels by `d`, at time `now`; every setpoint is brought into range.
pub open spec fn edited(u: UIChannels, vsel: VarSelected, chsel: ChSelected, d: int, now: u32) -> UIChannels {
    UIChannels {
        ch1: if selects(chsel, Channel::Ch1) {
            edited_channel(u.ch1, vsel, d)
        } else {
            fixed_channel(u.ch1.vset as int, u.ch1.iset as int)
        },
        ch2: if selects(chsel, Channel::Ch2) {
            edited_channel(u.ch2, vsel, d)
        } else {
            fixed_channel(u.ch2.vset as int, u.ch2.iset as int)
        },
        last_change: now,
    }
}

/// Commands that set the edited variable on both channels.
pub open spec fn set_cmds_text(u: UIChannels, vsel: VarSelected) -> Seq<u8> {
    match vsel {
        VarSelected::V => command_text(Command::Vset { ch: Channel::Ch1, val: u.ch1.vset })
            + command_text(Command::Vset { ch: Channel::Ch2, val: u.ch2.vset }),
        VarSelected::I => command_text(Command::Iset { ch: Channel::Ch1, val: u.ch1.iset })
            + command_text(Command::Iset { ch: Channel::Ch2, val: u.ch2.iset }),
    }
}

/// Encoder steps are worth a volt or an ampere while the encoder button is
/// held, a tenth otherwise.
pub open spec fn step_milli(pressed: bool) -> int {
    if pressed {
        1000
    } else {
        100
    }
}

/// Whether an edit made at `last_change` is stale at `now`: the timeout has
/// passed, or `now` is not later (the counter wrapped).
pub open spec fn edit_expired(now: u32, last_change: u32) -> bool {
    !(now > last_change) || now - last_change >= EDIT_TIMEOUT_CYCLES
}

impl UIChannel {
    /// Setpoints taken from readings, rounded to a tenth.
    pub fn new(v: i64, i: i64) -> (r: UIChannel)
        requires
            -MAX_READING < v < MAX_READING,
            -MAX_READING < i < MAX_READING,
        ensures
            r.vset == round_tenth(v as int),
            r.iset == round_tenth(i as int),
    {
        UIChannel { vset: round_milli_to_tenth(v), iset: round_milli_to_tenth(i) }
    }

    /// Brings the setpoints into the safe ranges.
    pub fn fix_range(&mut self)
        ensures
            *final(self) == fixed_channel(old(self).vset as int, old(self).iset as int),
    {
        let v = if self.vset > VSET_MAX {
            VSET_MAX
        } else if self.vset < 0 {
            0
        } else {
            self.vset
        };
        let imax = if v > VSET_HIGH {
            ISET_MAX_HIGH_V
        } else {
            ISET_MAX
        };
        let i = if self.iset > imax {
            imax
        } else if self.iset < 0 {
            0
        } else {
            self.iset
        };
        self.vset = v;
        self.iset = i;
    }
}

/// `x` thousandths rounded to a tenth, halves away from zero.
pub fn round_milli_to_tenth(x: i64) -> (r: i64)
    requires
        -MAX_READING < x < MAX_READING,
    ensures
        r == round_tenth(x as int),
{
    if x >= 0 {
        ((x + 50) / 100) * 100
    } else {
        -(((-x + 50) / 100) * 100)
    }
}

impl UIChannels {
    /// Brings the setpoints of both channels into the safe ranges.
    pub fn fix_range(&mut self)
        ensures
            final(self).ch1 == fixed_channel(old(self).ch1.vset as int, old(self).ch1.iset as int),
            final(self).ch2 == fixed_channel(old(self).ch2.vset as int, old(self).ch2.iset as int),
            final(self).last_change == old(self).last_change,
    {
        self.ch1.fix_range();
        self.ch2.fix_range();
    }

    /// Appends the commands that set the current of both channels.
    pub fn iset_cmds(&self, cmdbuf: &mut ByteBuf)
        requires
            self.cmds_ok(),
            buf_contents(*old(cmdbuf)).len() + set_cmds_text(*self, VarSelected::I).len() <= BUF_CAP,
        ensures
            buf_contents(*final(cmdbuf)) == buf_contents(*old(cmdbuf)) + set_cmds_text(*self, VarSelected::I),
    {
        let ghost start = buf_contents(*cmdbuf);
        Command::Iset { ch: Channel::Ch1, val: self.ch1.iset }.append_to_str(cmdbuf);
        Command::Iset { ch: Channel::Ch2, val: self.ch2.iset }.append_to_str(cmdbuf);
        assert(buf_contents(*cmdbuf) =~= start + set_cmds_text(*self, VarSelected::I));
    }

    /// Appends the commands that set the voltage of both channels.
    pub fn vset_cmds(&self, cmdbuf: &mut ByteBuf)
        requires
            self.cmds_ok(),
            buf_contents(*old(cmdbuf)).len() + set_cmds_text(*self, VarSelected::V).len() <= BUF_CAP,
        ensures
            buf_contents(*final(cmdbuf)) == buf_contents(*old(cmdbuf)) + set_cmds_text(*self, VarSelected::V),
    {
        let ghost start = buf_contents(*cmdbuf);
        Command::Vset { ch: Channel::Ch1, val: self.ch1.vset }.append_to_str(cmdbuf);
        Command::Vset { ch: Channel::Ch2, val: self.ch2.vset }.append_to_str(cmdbuf);
        assert(buf_contents(*cmdbuf) =~= start + set_cmds_text(*self, VarSelected::V));
    }
}

impl UIChannels {
    /// Setpoints small enough to be written into commands.
    pub open spec fn cmds_ok(&self) -> bool {
        &&& -MAX_CMD_MILLI <= self.ch1.vset <= MAX_CMD_MILLI
        &&& -MAX_CMD_MILLI <= self.ch1.iset <= MAX_CMD_MILLI
        &&& -MAX_CMD_MILLI <= self.ch2.vset <= MAX_CMD_MILLI
        &&& -MAX_CMD_MILLI <= self.ch2.iset <= MAX_CMD_MILLI
    }
}

/// The commands for both channels take at most 46 bytes.
pub proof fn lemma_set_cmds_text_len(u: UIChannels, vsel: VarSelected)
    requires
        u.cmds_ok(),
    ensures
        set_cmds_text(u, vsel).len() <= 46,
{
    lemma_command_text_len(Command::Vset { ch: Channel::Ch1, val: u.ch1.vset });
    lemma_command_text_len(Command::Vset { ch: Channel::Ch2, val: u.ch2.vset });
    lemma_command_text_len(Command::Iset { ch: Channel::Ch1, val: u.ch1.iset });
    lemma_command_text_len(Command::Iset { ch: Channel::Ch2, val: u.ch2.iset });
}

impl ChSelected {
    pub open spec fn next_spec(self) -> ChSelected {
        match self {
            ChSelected::Both => ChSelected::Ch1,
            ChSelected::Ch1 => ChSelected::Ch2,
            ChSelected::Ch2 => ChSelected::Both,
        }
    }

    /// The next selection in the cycle Both, Ch1, Ch2.
    pub fn next(&self) -> (r: ChSelected)
        ensures
            r == self.next_spec(),
    {
        match self {
            ChSelected::Both => ChSelected::Ch1,
            ChSelected::Ch1 => ChSelected::Ch2,
            ChSelected::Ch2 => ChSelected::Both,
        }
    }
}

impl VarSelected {
    pub open spec fn next_spec(self) -> VarSelected {
        match self {
            VarSelected::V => VarSelected::I,
            VarSelected::I => VarSelected::V,
        }
    }

    /// The other variable.
    pub fn next(&self) -> (r: VarSelected)
        ensures
            r == self.next_spec(),
    {
        match self {
            VarSelected::V => VarSelected::I,
            VarSelected::I => VarSelected::V,
        }
    }
}

// ---------------------------------------------------------------------------
// Info screen

impl InfoScreen {
    /// Readings are bounded and a live edit buffer is within the safe ranges.
    pub open spec fn wf(&self) -> bool {
        &&& self.ch1.wf()
        &&& self.ch2.wf()
        &&& match self.uich {
            Some(u) => channels_in_range(u),
            None => true,
        }
    }
}

/// Whether any output is on, once both output states are known.
pub open spec fn has_output_spec(is: InfoScreen) -> Option<bool> {
    match (is.ch1.out, is.ch2.out) {
        (Some(a), Some(b)) => Some(a || b),
        _ => None,
    }
}

/// The edit buffer that a turn of the encoder works on: the live one, else
/// one made from the queried setpoints once all four are known.
pub open spec fn start_edit(is: InfoScreen, now: u32) -> Option<UIChannels> {
    match is.uich {
        Some(u) => Some(u),
        None => match (is.ch1.vset, is.ch1.iset, is.ch2.vset, is.ch2.iset) {
            (Some(v1), Some(i1), Some(v2), Some(i2)) => Some(
                UIChannels {
                    ch1: UIChannel {
                        vset: round_tenth(v1 as int) as i64,
                        iset: round_tenth(i1 as int) as i64,
                    },
                    ch2: UIChannel {
                        vset: round_tenth(v2 as int) as i64,
                        iset: round_tenth(i2 as int) as i64,
                    },
                    last_change: now,
                },
            ),
            _ => None,
        },
    }
}

/// The screen after the encoder turned by `diff` steps (with its button
/// held or not) or, without a turn, after an encoder button press.
pub open spec fn rotary_spec(
    is: InfoScreen,
    press: Option<u32>,
    pressed: bool,
    diff: i16,
    now: u32,
) -> InfoScreen {
    if diff != 0 {
        match start_edit(is, now) {
            Some(u) => InfoScreen {
                uich: Some(edited(u, is.vsel, is.chsel, step_milli(pressed) * diff, now)),
                ..is
            },
            None => is,
        }
    } else {
        match press {
            Some(d) => if d > VAR_TOGGLE_PRESS {
                InfoScreen { vsel: is.vsel.next_spec(), ..is }
            } else {
                InfoScreen { chsel: is.chsel.next_spec(), ..is }
            },
            None => is,
        }
    }
}

/// The screen with the edit buffer dropped when it is stale at `now`.
pub open spec fn expire_spec(is: InfoScreen, now: u32) -> InfoScreen {
    match is.uich {
        Some(u) => if edit_expired(now, u.last_change) {
            InfoScreen { uich: None, ..is }
        } else {
            is
        },
        None => is,
    }
}

/// The screen with reading `r` stored for query `q`.
pub open spec fn with_query_reading(is: InfoScreen, q: Query, r: Reading) -> InfoScreen {
    match q.channel {
        Channel::Ch1 => InfoScreen { ch1: with_reading(is.ch1, q.header, r), ..is },
        Channel::Ch2 => InfoScreen { ch2: with_reading(is.ch2, q.header, r), ..is },
    }
}

/// Moves the selected setpoint of the selected channels of `u` by `re_diff`
/// steps and brings every setpoint into range.
pub fn apply_edit(
    u: UIChannels,
    vsel: VarSelected,
    chsel: ChSelected,
    re_pressed: bool,
    re_diff: i16,
    now: u32,
) -> (r: UIChannels)
    requires
        -MAX_READING - 100 <= u.ch1.vset <= MAX_READING + 100,
        -MAX_READING - 100 <= u.ch1.iset <= MAX_READING + 100,
        -MAX_READING - 100 <= u.ch2.vset <= MAX_READING + 100,
        -MAX_READING - 100 <= u.ch2.iset <= MAX_READING + 100,
    ensures
        r == edited(u, vsel, chsel, step_milli(re_pressed) * re_diff, now),
        channels_in_range(r),
{
    let mut ch = u;
    let mul: i64 = if re_pressed {
        1000
    } else {
        100
    };
    let d: i64 = mul * (re_diff as i64);
    ch.last_change = now;
    let sel1 = match chsel {
        ChSelected::Ch2 => false,
        _ => true,
    };
    let sel2 = match chsel {
        ChSelected::Ch1 => false,
        _ => true,
    };
    match vsel {
        VarSelected::V => {
            if sel1 {
                ch.ch1.vset = ch.ch1.vset + d;
            }
            if sel2 {
                ch.ch2.vset = ch.ch2.vset + d;
            }
        },
        VarSelected::I => {
            if sel1 {
                ch.ch1.iset = ch.ch1.iset + d;
            }
            if sel2 {
                ch.ch2.iset = ch.ch2.iset + d;
            }
        },
    }
    ch.fix_range();
    ch
}

impl InfoScreen {
    /// The screen before any reading: both channels selected, voltage edited.
    pub fn new() -> (r: InfoScreen)
        ensures
            r.wf(),
            r.ch1 == PSChannel::new_spec(),
            r.ch2 == PSChannel::new_spec(),
            r.uich is None,
            r.vsel == VarSelected::V,
            r.chsel == ChSelected::Both,
    {
        InfoScreen {
            ch1: PSChannel::new(),
            ch2: PSChannel::new(),
            uich: None,
            vsel: VarSelected::V,
            chsel: ChSelected::Both,
        }
    }

    /// Whether any output is on, once both output states are known.
    pub fn has_output(&self) -> (r: Option<bool>)
        ensures
            r == has_output_spec(*self),
    {
        match (self.ch1.out, self.ch2.out) {
            (Some(a), Some(b)) => Some(a || b),
            _ => None,
        }
    }

    /// Handles the on/off button: once both output states are known, the
    /// pending command is replaced by commands that turn both outputs off
    /// when any is on, else on; the output states are then unknown until the
    /// next query answers them.
    pub fn handle_on_off_button(&mut self, cmdbuf: &mut ByteBuf)
        ensures
            match has_output_spec(*old(self)) {
                Some(ha) => {
                    &&& *final(self) == (InfoScreen {
                        ch1: PSChannel { out: None, ..old(self).ch1 },
                        ch2: PSChannel { out: None, ..old(self).ch2 },
                        ..*old(self)
                    })
                    &&& buf_contents(*final(cmdbuf)) == command_text(Command::Out { ch: Channel::Ch1, on: !ha })
                        + command_text(Command::Out { ch: Channel::Ch2, on: !ha })
                },
                None => *final(self) == *old(self) && buf_contents(*final(cmdbuf)) == buf_contents(*old(cmdbuf)),
            },
    {
        match self.has_output() {
            Some(ha) => {
                buf_clear(cmdbuf);
                proof {
                    lemma_command_text_len(Command::Out { ch: Channel::Ch1, on: !ha });
                    lemma_command_text_len(Command::Out { ch: Channel::Ch2, on: !ha });
                }
                Command::Out { ch: Channel::Ch1, on: !ha }.append_to_str(cmdbuf);
                Command::Out { ch: Channel::Ch2, on: !ha }.append_to_str(cmdbuf);
                self.ch1.out = None;
                self.ch2.out = None;
            },
            None => {},
        }
    }

    /// The edit buffer that a turn of the encoder works on.
    fn mk_ui_channels(&self, now: u32) -> (r: Option<UIChannels>)
        requires
            self.wf(),
        ensures
            r == start_edit(*self, now),
    {
        match self.uich {
            Some(u) => Some(u),
            None => match (self.ch1.vset, self.ch1.iset, self.ch2.vset, self.ch2.iset) {
                (Some(v1), Some(i1), Some(v2), Some(i2)) => Some(
                    UIChannels {
                        ch1: UIChannel::new(v1, i1),
                        ch2: UIChannel::new(v2, i2),
                        last_change: now,
                    },
                ),
                _ => None,
            },
        }
    }

    /// Handles the encoder. A turn of `re_diff` steps moves the selected
    /// setpoint of the selected channels, a volt or an ampere per step while
    /// the encoder button is held (`re_pressed`), a tenth otherwise, and
    /// replaces the pending command with one that sets the new values. No
    /// turn and a press longer than [`VAR_TOGGLE_PRESS`] toggles the edited
    /// variable; a shorter one cycles the selected channels.
    pub fn handle_rotary_encoder(
        &mut self,
        re_press_duration: Option<u32>,
        re_pressed: bool,
        re_diff: i16,
        now: u32,
        cmdbuf: &mut ByteBuf,
    )
        requires
            old(self).wf(),
        ensures
            final(self).wf(),
            *final(self) == rotary_spec(*old(self), re_press_duration, re_pressed, re_diff, now),
            buf_contents(*final(cmdbuf)) == if re_diff != 0 && start_edit(*old(self), now) is Some {
                set_cmds_text(final(self).uich->Some_0, old(self).vsel)
            } else {
                buf_contents(*old(cmdbuf))
            },
    {
        if re_diff != 0 {
            match self.mk_ui_channels(now) {
                Some(u) => {
                    let ch = apply_edit(u, self.vsel, self.chsel, re_pressed, re_diff, now);
                    buf_clear(cmdbuf);
                    proof {
                        lemma_set_cmds_text_len(ch, self.vsel);
                    }
                    match self.vsel {
                        VarSelected::V => ch.vset_cmds(cmdbuf),
                        VarSelected::I => ch.iset_cmds(cmdbuf),
                    }
                    self.uich = Some(ch);
                },
                None => {},
            }
        } else {
            match re_press_duration {
                Some(rpd) => {
                    if rpd > VAR_TOGGLE_PRESS {
                        self.vsel = self.vsel.next();
                    } else {
                        self.chsel = self.chsel.next();
                    }
                },
                None => {},
            }
        }
    }

    /// Drops the edit buffer when it is stale at `now`.
    pub fn expire_edit(&mut self, now: u32)
        ensures
            *final(self) == expire_spec(*old(self), now),
    {
        match self.uich {
            Some(u) => {
                if !(now > u.last_change) || now - u.last_change >= EDIT_TIMEOUT_CYCLES {
                    self.uich = None;
                }
            },
            None => {},
        }
    }

    /// Handles the response `line` to query `q` at time `now`: a stale edit
    /// buffer is dropped, then the reading is parsed and stored for the
    /// query's channel. On a parse error nothing else changes.
    pub fn set_query_result(&mut self, q: &Query, line: &ByteBuf, now: u32) -> (r: Result<
        Reading,
        AppError,
    >)
        requires
            old(self).wf(),
        ensures
            final(self).wf(),
            match reading_of(q.header, buf_contents(*line)) {
                Some(v) => r == Ok::<Reading, AppError>(v) && *final(self) == with_query_reading(
                    expire_spec(*old(self), now),
                    *q,
                    v,
                ),
                None => r == Err::<Reading, AppError>(AppError::ParseError) && *final(self)
                    == expire_spec(*old(self), now),
            },
    {
        self.expire_edit(now);
        match q.channel {
            Channel::Ch1 => self.ch1.set_query_result(q.header, line),
            Channel::Ch2 => self.ch2.set_query_result(q.header, line),
        }
    }
}

impl PSChannel {
    pub open spec fn new_spec() -> PSChannel {
        PSChannel { vset: None, vout: None, iset: None, iout: None, out: None }
    }
}

// ---------------------------------------------------------------------------
// Project files

/// Byte strings in lexicographic order: `a` is a prefix of `b`, or `a` is
/// smaller at the first byte where they differ.
pub open spec fn lex_le(a: Seq<u8>, b: Seq<u8>) -> bool
    decreases a.len(),
{
    if a.len() == 0 {
        true
    } else if b.len() == 0 {
        false
    } else if a[0] != b[0] {
        a[0] < b[0]
    } else {
        lex_le(a.drop_first(), b.drop_first())
    }
}

pub open spec fn sorted_names(s: Seq<Seq<u8>>) -> bool {
    forall|i: int, j: int| 0 <= i < j < s.len() ==> lex_le(#[trigger] s[i], #[trigger] s[j])
}

/// Names in strictly ascending lexicographic order: sorted, none twice.
pub open spec fn strictly_sorted(s: Seq<Seq<u8>>) -> bool {
    forall|i: int, j: int|
        0 <= i < j < s.len() ==> lex_le(#[trigger] s[i], #[trigger] s[j]) && s[i] != s[j]
}

/// Two byte strings each at most the other are equal.
pub proof fn lemma_lex_le_antisym(a: Seq<u8>, b: Seq<u8>)
    requires
        lex_le(a, b),
        lex_le(b, a),
    ensures
        a == b,
    decreases a.len(),
{
    if a.len() > 0 && b.len() > 0 {
        lemma_lex_le_antisym(a.drop_first(), b.drop_first());
        assert forall|i: int| 0 <= i < a.len() implies a[i] == b[i] by {
            if i > 0 {
                assert(a[i] == a.drop_first()[i - 1]);
                assert(b[i] == b.drop_first()[i - 1]);
            }
        }
        assert(a =~= b);
    } else {
        assert(a =~= b);
    }
}

/// The names of a sorted list, each once, in the same order.
fn dedup_sorted(v: &NameList) -> (r: NameList)
    requires
        sorted_names(list_names(*v)),
    ensures
        strictly_sorted(list_names(r)),
        forall|x: Seq<u8>| list_names(r).contains(x) <==> list_names(*v).contains(x),
        list_names(*v).len() > 0 ==> list_names(r).len() > 0,
        list_names(r).len() <= list_names(*v).len(),
{
    let ghost s = list_names(*v);
    let mut r = list_new();
    let ghost mut idx: Seq<int> = Seq::empty();
    let ghost mut pos: Seq<int> = Seq::empty();
    let n = list_len(v);
    let mut i: usize = 0;
    while i < n
        invariant
            s == list_names(*v),
            sorted_names(s),
            n <= LIST_CAP,
            s.len() == n,
            i <= n,
            list_names(r).len() <= i,
            idx.len() == list_names(r).len(),
            pos.len() == i,
            forall|k: int|
                0 <= k < list_names(r).len() ==> 0 <= #[trigger] idx[k] < i && list_names(r)[k] == s[idx[k]],
            forall|k1: int, k2: int| 0 <= k1 < k2 < list_names(r).len() ==> #[trigger] idx[k1] < #[trigger] idx[k2],
            forall|m: int|
                0 <= m < i ==> 0 <= #[trigger] pos[m] < list_names(r).len() && list_names(r)[pos[m]] == s[m],
            strictly_sorted(list_names(r)),
            i > 0 ==> list_names(r).len() > 0 && list_names(r)[list_names(r).len() - 1] == s[i - 1],
        decreases n - i,
    {
        let ghost old_r = list_names(r);
        let rlen = list_len(&r);
        let dup = rlen > 0 && buf_eq(list_get(&r, rlen - 1), list_get(v, i));
        if dup {
            proof {
                pos = pos.push(list_names(r).len() - 1);
            }
        } else {
            let c = buf_copy(list_get(v, i));
            proof {
                assert forall|k: int| 0 <= k < old_r.len() implies lex_le(old_r[k], s[i as int])
                    && old_r[k] != s[i as int] by {
                    assert(idx[k] < i);
                    assert(lex_le(s[idx[k]], s[i as int]));
                    if old_r[k] == s[i as int] {
                        if k < old_r.len() - 1 {
                            assert(lex_le(old_r[k], old_r[old_r.len() - 1]));
                        }
                        assert(lex_le(s[i - 1], s[i as int]));
                        lemma_lex_le_antisym(s[i - 1], s[i as int]);
                    }
                }
                idx = idx.push(i as int);
                pos = pos.push(list_names(r).len() as int);
            }
            let ok = list_push(&mut r, c);
            assert(ok);
        }
        i = i + 1;
    }
    proof {
        let t = list_names(r);
        assert forall|x: Seq<u8>| t.contains(x) <==> s.contains(x) by {
            if t.contains(x) {
                let k = choose|k: int| 0 <= k < t.len() && t[k] == x;
                assert(s[idx[k]] == x);
            }
            if s.contains(x) {
                let m = choose|m: int| 0 <= m < s.len() && s[m] == x;
                assert(t[pos[m]] == x);
            }
        }
    }
    r
}

/// Relies on `slice::sort` (through `DerefMut` of `heapless::Vec`), which
/// orders the names by the `Ord` of `heapless::Vec<u8, 64>` (that of its
/// byte slice: lexicographic) and keeps every name.
#[verifier::external_body]
fn sort_names(v: &mut NameList)
    ensures
        sorted_names(list_names(*final(v))),
        list_names(*final(v)).to_multiset() == list_names(*old(v)).to_multiset(),
{
    v.sort()
}

/// The root directory's file names, sorted, and the selected entry.
pub struct ProjectFiles {
    pub fnames: NameList,
    pub selected: usize,
}

impl ProjectFiles {
    /// The selection never passes the end of a non-empty list.
    pub open spec fn wf(&self) -> bool {
        0 < list_names(self.fnames).len() && self.selected <= list_names(self.fnames).len()
    }

    /// A browser over the names of `fnames`, sorted, each once, with the
    /// first entry selected; an empty list is an error.
    pub fn new(fnames: NameList) -> (r: Result<ProjectFiles, AppError>)
        ensures
            list_names(fnames).len() == 0 <==> r is Err,
            match r {
                Ok(pf) => {
                    &&& pf.wf()
                    &&& pf.selected == 0
                    &&& strictly_sorted(list_names(pf.fnames))
                    &&& forall|x: Seq<u8>|
                        list_names(pf.fnames).contains(x) <==> list_names(fnames).contains(x)
                },
                Err(e) => e == AppError::ProjectFileError,
            },
    {
        if list_len(&fnames) == 0 {
            return Err(AppError::ProjectFileError);
        }
        let mut fnames = fnames;
        let ghost before = list_names(fnames);
        sort_names(&mut fnames);
        proof {
            list_names(fnames).to_multiset_ensures();
            before.to_multiset_ensures();
            assert forall|x: Seq<u8>| list_names(fnames).contains(x) <==> before.contains(x) by {
                assert(list_names(fnames).to_multiset().count(x) == before.to_multiset().count(x));
            }
            assert(before.contains(before[0]));
        }
        let names = dedup_sorted(&fnames);
        Ok(ProjectFiles { fnames: names, selected: 0 })
    }

    /// Moves the selection by `re_diff`, within `[0, len]`. A press of at
    /// least [`LOAD_PRESS`] picks the selected name; with the selection past
    /// the last name there is none to pick, which is an error.
    pub fn handle_rotary_encoder(&mut self, re_press_duration: Option<u32>, re_diff: i16) -> (r:
        Result<Option<ByteBuf>, AppError>)
        requires
            old(self).wf(),
        ensures
            final(self).wf(),
            final(self).fnames == old(self).fnames,
            final(self).selected == clamp(
                old(self).selected + re_diff,
                0,
                list_names(old(self).fnames).len() as int,
            ),
            match re_press_duration {
                Some(d) if d >= LOAD_PRESS => if final(self).selected < list_names(final(self).fnames).len() {
                    &&& r is Ok
                    &&& r->Ok_0 is Some
                    &&& buf_contents(r->Ok_0->Some_0) == list_names(final(self).fnames)[final(self).selected as int]
                } else {
                    r == Err::<Option<ByteBuf>, AppError>(AppError::ProjectFileError)
                },
                _ => r matches Ok(None),
            },
    {
        let len = list_len(&self.fnames);
        let sel: i64 = self.selected as i64 + re_diff as i64;
        self.selected = if sel < 0 {
            0
        } else if sel > len as i64 {
            len
        } else {
            sel as usize
        };
        match re_press_duration {
            Some(d) => {
                if d >= LOAD_PRESS {
                    if self.selected < len {
                        let name = buf_copy(list_get(&self.fnames, self.selected));
                        Ok(Some(name))
                    } else {
                        Err(AppError::ProjectFileError)
                    }
                } else {
                    Ok(None)
                }
            },
            None => Ok(None),
        }
    }
}

// ---------------------------------------------------------------------------
// Controller state

/// UI states; exactly one is active.
pub enum UI {
    UILoading(&'static str),
    USSBSerial,
    InfoScreen(InfoScreen),
    ProjectFiles(ProjectFiles),
}

/// State of the power supply controller: a sticky error to show, and the UI.
pub struct PS {
    pub error: Option<AppError>,
    pub ui: UI,
}

impl UI {
    pub open spec fn wf(&self) -> bool {
        match self {
            UI::InfoScreen(is) => is.wf(),
            UI::ProjectFiles(pf) => pf.wf(),
            _ => true,
        }
    }
}

impl PS {
    pub open spec fn wf(&self) -> bool {
        self.ui.wf()
    }

    /// A controller that is initializing, with no error.
    pub fn new() -> (r: PS)
        ensures
            r.wf(),
            r.error is None,
            r.ui == UI::UILoading("Initializing..."),
    {
        PS { error: None, ui: UI::UILoading("Initializing...") }
    }

    /// Records `e` unless an error is already shown: the first one stays
    /// until cleared.
    pub fn show_error(&mut self, e: AppError)
        ensures
            final(self).error == if old(self).error is None {
                Some(e)
            } else {
                old(self).error
            },
            final(self).ui == old(self).ui,
    {
        if self.error.is_none() {
            self.error = Some(e);
        }
    }

    /// Clears the shown error.
    pub fn clear_error(&mut self)
        ensures
            final(self).error is None,
            final(self).ui == old(self).ui,
    {
        self.error = None;
    }

    /// Shows a loading screen with label `s`.
    pub fn set_ui_loading(&mut self, s: &'static str)
        ensures
            final(self).ui == UI::UILoading(s),
            final(self).error == old(self).error,
    {
        self.ui = UI::UILoading(s);
    }

    /// Switches to the USB serial bridge.
    pub fn set_ui_usb_serial(&mut self)
        ensures
            final(self).ui == UI::USSBSerial,
            final(self).error == old(self).error,
    {
        self.ui = UI::USSBSerial;
    }

    /// Switches to a fresh info screen.
    pub fn set_ui_info_screen(&mut self)
        ensures
            final(self).ui matches UI::InfoScreen(is) && is == InfoScreen::new_spec(),
            final(self).error == old(self).error,
    {
        self.ui = UI::InfoScreen(InfoScreen::new());
    }

    /// Switches to the file browser `pf`.
    pub fn set_ui_project_files(&mut self, pf: ProjectFiles)
        ensures
            final(self).ui == UI::ProjectFiles(pf),
            final(self).error == old(self).error,
    {
        self.ui = UI::ProjectFiles(pf);
    }
}

impl InfoScreen {
    pub open spec fn new_spec() -> InfoScreen {
        InfoScreen {
            ch1: PSChannel::new_spec(),
            ch2: PSChannel::new_spec(),
            uich: None,
            vsel: VarSelected::V,
            chsel: ChSelected::Both,
        }
    }
}

// ---------------------------------------------------------------------------
// Laws of the info screen

/// Encoder polls that report no turn and no press leave the edit buffer as
/// it was, present or absent.
pub proof fn lemma_zero_turns_keep_edit(is: InfoScreen, pressed: bool, now1: u32, now2: u32)
    ensures
        rotary_spec(rotary_spec(is, None, pressed, 0, now1), None, pressed, 0, now2) == is,
{
}

/// The edit buffer after the same edit was applied `k` times.
pub open spec fn repeat_edit(
    u: UIChannels,
    vsel: VarSelected,
    chsel: ChSelected,
    d: int,
    now: u32,
    k: nat,
) -> UIChannels
    decreases k,
{
    if k == 0 {
        u
    } else {
        edited(repeat_edit(u, vsel, chsel, d, now, (k - 1) as nat), vsel, chsel, d, now)
    }
}

proof fn lemma_repeat_voltage_bounds(
    u: UIChannels,
    chsel: ChSelected,
    d: int,
    now: u32,
    k: nat,
    ch: Channel,
)
    requires
        channels_in_range(u),
        selects(chsel, ch),
    ensures
        ({
            let c = if ch == Channel::Ch1 {
                repeat_edit(u, VarSelected::V, chsel, d, now, k).ch1
            } else {
                repeat_edit(u, VarSelected::V, chsel, d, now, k).ch2
            };
            let c0 = if ch == Channel::Ch1 {
                u.ch1
            } else {
                u.ch2
            };
            &&& 0 <= c.vset <= VSET_MAX
            &&& d >= 0 ==> c.vset >= vstd::math::min(VSET_MAX as int, c0.vset + k * d)
            &&& d <= 0 ==> c.vset <= vstd::math::max(0, c0.vset + k * d)
        }),
    decreases k,
{
    if k > 0 {
        lemma_repeat_voltage_bounds(u, chsel, d, now, (k - 1) as nat, ch);
        assert(k * d == (k - 1) * d + d) by (nonlinear_arith);
    }
}

/// Repeating the same voltage edit drives the setpoint of every selected
/// channel to the end of its range and keeps it there: after `k` edits of
/// `d` with `k * |d|` at least the range's width, the setpoint is the top of
/// the range when `d > 0` and zero when `d < 0`, whatever it started from.
pub proof fn lemma_repeated_voltage_edits_converge(
    u: UIChannels,
    chsel: ChSelected,
    d: int,
    now: u32,
    k: nat,
)
    requires
        channels_in_range(u),
        d != 0,
        k * d >= VSET_MAX || k * d <= -VSET_MAX,
    ensures
        ({
            let e = repeat_edit(u, VarSelected::V, chsel, d, now, k);
            let target = if d > 0 {
                VSET_MAX
            } else {
                0
            };
            &&& selects(chsel, Channel::Ch1) ==> e.ch1.vset == target
            &&& selects(chsel, Channel::Ch2) ==> e.ch2.vset == target
        }),
{
    if d > 0 {
        assert(k * d >= 0) by (nonlinear_arith)
            requires
                d > 0,
        ;
    } else {
        assert(k * d <= 0) by (nonlinear_arith)
            requires
                d < 0,
        ;
    }
    if selects(chsel, Channel::Ch1) {
        lemma_repeat_voltage_bounds(u, chsel, d, now, k, Channel::Ch1);
    }
    if selects(chsel, Channel::Ch2) {
        lemma_repeat_voltage_bounds(u, chsel, d, now, k, Channel::Ch2);
    }
}

/// An edit never leaves the safe ranges, so repeating it stays within them.
pub proof fn lemma_edit_in_range(
    u: UIChannels,
    vsel: VarSelected,
    chsel: ChSelected,
    d: int,
    now: u32,
)
    ensures
        channels_in_range(edited(u, vsel, chsel, d, now)),
{
}

} // verus!
