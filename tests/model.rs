use ps_gpib::buf::{buf_from_slice, buf_to_vec, ByteBuf, NameList};
use ps_gpib::error::AppError;
use ps_gpib::model::{
    round_milli_to_tenth, ChSelected, InfoScreen, PSChannel, ProjectFiles, Reading, UIChannel,
    UIChannels, VarSelected, PS, UI,
};
use ps_gpib::protocol::{Channel, ChannelHeader, Query};

fn list(names: &[&str]) -> NameList {
    let mut l = NameList::new();
    for n in names {
        l.push(buf_from_slice(n.as_bytes())).unwrap();
    }
    l
}

fn names_of(l: &NameList) -> Vec<Vec<u8>> {
    l.iter().map(buf_to_vec).collect()
}


fn screen_with_setpoints(v1: i64, i1: i64, v2: i64, i2: i64) -> InfoScreen {
    let mut is = InfoScreen::new();
    is.ch1.vset = Some(v1);
    is.ch1.iset = Some(i1);
    is.ch2.vset = Some(v2);
    is.ch2.iset = Some(i2);
    is
}

#[test]
fn zero_turns_leave_edit_buffer_absent() {
    let mut is = screen_with_setpoints(5000, 1000, 5000, 1000);
    let mut cmd = ByteBuf::new();
    is.handle_rotary_encoder(None, false, 0, 100, &mut cmd);
    is.handle_rotary_encoder(None, false, 0, 200, &mut cmd);
    assert!(is.uich.is_none());
    assert!(cmd.is_empty());
}

#[test]
fn zero_turns_leave_edit_buffer_unchanged() {
    let mut is = screen_with_setpoints(5000, 1000, 5000, 1000);
    let mut cmd = ByteBuf::new();
    is.handle_rotary_encoder(None, false, 3, 100, &mut cmd);
    let before = is.uich;
    is.handle_rotary_encoder(None, false, 0, 200, &mut cmd);
    is.handle_rotary_encoder(None, true, 0, 300, &mut cmd);
    assert_eq!(is.uich, before);
}

#[test]
fn fine_turn_raises_both_voltages() {
    let mut is = screen_with_setpoints(10000, 1000, 3000, 500);
    let mut cmd = ByteBuf::new();
    is.handle_rotary_encoder(None, false, 10, 100, &mut cmd);
    let u = is.uich.unwrap();
    assert_eq!(u.ch1.vset, 11000);
    assert_eq!(u.ch2.vset, 4000);
    assert_eq!(buf_to_vec(&cmd), b"VSET 1 11.000;VSET 2 4.000;".to_vec());
}

#[test]
fn coarse_turn_clamps_voltage() {
    let mut is = screen_with_setpoints(15000, 1000, 3000, 500);
    let mut cmd = buf_from_slice(b"OLD;");
    is.handle_rotary_encoder(None, true, 10, 100, &mut cmd);
    let u = is.uich.unwrap();
    assert_eq!(u.ch1.vset, 20000);
    assert_eq!(u.ch2.vset, 13000);
    assert_eq!(buf_to_vec(&cmd), b"VSET 1 20.000;VSET 2 13.000;".to_vec());
}

#[test]
fn repeated_edits_converge_to_limit() {
    let mut is = screen_with_setpoints(10000, 1000, 3000, 500);
    let mut cmd = ByteBuf::new();
    for t in 0..25u32 {
        is.handle_rotary_encoder(None, true, 1, 100 + t, &mut cmd);
    }
    let u = is.uich.unwrap();
    assert_eq!(u.ch1.vset, 20000);
    assert_eq!(u.ch2.vset, 20000);
    is.handle_rotary_encoder(None, true, 1, 200, &mut cmd);
    assert_eq!(is.uich.unwrap().ch1.vset, 20000);
}

#[test]
fn current_capped_at_high_voltage() {
    let mut is = screen_with_setpoints(12000, 9000, 5000, 9000);
    is.vsel = VarSelected::I;
    is.chsel = ChSelected::Ch1;
    let mut cmd = ByteBuf::new();
    is.handle_rotary_encoder(None, false, 1, 100, &mut cmd);
    let u = is.uich.unwrap();
    assert_eq!(u.ch1.iset, 4000);
    assert_eq!(u.ch2.iset, 9000);
    assert_eq!(buf_to_vec(&cmd), b"ISET 1 4.000;ISET 2 9.000;".to_vec());
}

#[test]
fn negative_edit_clamps_at_zero() {
    let mut is = screen_with_setpoints(300, 100, 5000, 100);
    is.chsel = ChSelected::Ch1;
    let mut cmd = ByteBuf::new();
    is.handle_rotary_encoder(None, false, -5, 100, &mut cmd);
    let u = is.uich.unwrap();
    assert_eq!(u.ch1.vset, 0);
    assert_eq!(u.ch2.vset, 5000);
}

#[test]
fn no_edit_without_setpoints() {
    let mut is = InfoScreen::new();
    let mut cmd = buf_from_slice(b"KEEP");
    is.handle_rotary_encoder(None, false, 4, 100, &mut cmd);
    assert!(is.uich.is_none());
    assert_eq!(buf_to_vec(&cmd), b"KEEP".to_vec());
}

#[test]
fn encoder_press_selects() {
    let mut is = InfoScreen::new();
    let mut cmd = ByteBuf::new();
    is.handle_rotary_encoder(Some(100), false, 0, 0, &mut cmd);
    assert_eq!(is.chsel, ChSelected::Ch1);
    is.handle_rotary_encoder(Some(150), false, 0, 0, &mut cmd);
    assert_eq!(is.chsel, ChSelected::Ch2);
    is.handle_rotary_encoder(Some(80), false, 0, 0, &mut cmd);
    assert_eq!(is.chsel, ChSelected::Both);
    is.handle_rotary_encoder(Some(250), false, 0, 0, &mut cmd);
    assert_eq!(is.vsel, VarSelected::I);
    assert_eq!(ChSelected::Both.next(), ChSelected::Ch1);
    assert_eq!(VarSelected::I.next(), VarSelected::V);
}

#[test]
fn on_off_toggles_both_outputs() {
    let mut is = InfoScreen::new();
    let mut cmd = ByteBuf::new();
    is.handle_on_off_button(&mut cmd);
    assert!(cmd.is_empty());
    is.ch1.out = Some(true);
    is.ch2.out = Some(false);
    assert_eq!(is.has_output(), Some(true));
    is.handle_on_off_button(&mut cmd);
    assert_eq!(buf_to_vec(&cmd), b"OUT 1 0;OUT 2 0;".to_vec());
    assert_eq!(is.ch1.out, None);
    assert_eq!(is.ch2.out, None);
    is.ch1.out = Some(false);
    is.ch2.out = Some(false);
    let mut cmd = ByteBuf::new();
    is.handle_on_off_button(&mut cmd);
    assert_eq!(buf_to_vec(&cmd), b"OUT 1 1;OUT 2 1;".to_vec());
}

#[test]
fn edit_buffer_expires_after_timeout() {
    let mut is = screen_with_setpoints(5000, 1000, 5000, 1000);
    let mut cmd = ByteBuf::new();
    is.handle_rotary_encoder(None, false, 1, 1000, &mut cmd);
    is.expire_edit(1000 + 100);
    assert!(is.uich.is_some());
    is.expire_edit(1000 + 216_000_000);
    assert!(is.uich.is_none());
}

#[test]
fn edit_buffer_expires_when_counter_wrapped() {
    let mut is = screen_with_setpoints(5000, 1000, 5000, 1000);
    let mut cmd = ByteBuf::new();
    is.handle_rotary_encoder(None, false, 1, 1000, &mut cmd);
    is.expire_edit(500);
    assert!(is.uich.is_none());
}

#[test]
fn query_result_stored_for_channel() {
    let mut is = InfoScreen::new();
    let q = Query { header: ChannelHeader::Vout, channel: Channel::Ch1 };
    let r = is.set_query_result(&q, &buf_from_slice(b"5.000\r\n"), 10);
    assert_eq!(r, Ok(Reading::Milli(5000)));
    assert_eq!(is.ch1.vout, Some(5000));
    assert_eq!(is.ch2.vout, None);
    let q = Query { header: ChannelHeader::Out, channel: Channel::Ch2 };
    assert_eq!(is.set_query_result(&q, &buf_from_slice(b"1\r\n"), 10), Ok(Reading::Flag(true)));
    assert_eq!(is.ch2.out, Some(true));
}

#[test]
fn query_result_parse_error_changes_nothing() {
    let mut is = InfoScreen::new();
    let q = Query { header: ChannelHeader::Iset, channel: Channel::Ch2 };
    let r = is.set_query_result(&q, &buf_from_slice(b"oops\r\n"), 10);
    assert_eq!(r, Err(AppError::ParseError));
    assert_eq!(is, InfoScreen::new());
}

#[test]
fn channel_rounding_and_range() {
    assert_eq!(round_milli_to_tenth(5049), 5000);
    assert_eq!(round_milli_to_tenth(5050), 5100);
    assert_eq!(round_milli_to_tenth(-5050), -5100);
    let c = UIChannel::new(1234, 567);
    assert_eq!(c, UIChannel { vset: 1200, iset: 600 });
    let mut c = UIChannel { vset: 25000, iset: -3 };
    c.fix_range();
    assert_eq!(c, UIChannel { vset: 20000, iset: 0 });
    let mut u = UIChannels { ch1: UIChannel { vset: 8000, iset: 9000 }, ch2: UIChannel { vset: -1, iset: 12000 }, last_change: 0 };
    u.fix_range();
    assert_eq!(u.ch1, UIChannel { vset: 8000, iset: 4000 });
    assert_eq!(u.ch2, UIChannel { vset: 0, iset: 10000 });
    let mut cmd = ByteBuf::new();
    u.vset_cmds(&mut cmd);
    u.iset_cmds(&mut cmd);
    assert_eq!(buf_to_vec(&cmd), b"VSET 1 8.000;VSET 2 0.000;ISET 1 4.000;ISET 2 10.000;".to_vec());
}

#[test]
fn ps_channel_starts_empty() {
    let c = PSChannel::new();
    assert_eq!(c.vset, None);
    assert_eq!(c.out, None);
}

#[test]
fn project_files_sorted_and_selected() {
    let pf = ProjectFiles::new(list(&["ZETA.TXT", "ALPHA", "BETA"]));
    let mut pf = pf.ok().unwrap();
    assert_eq!(names_of(&pf.fnames), vec![b"ALPHA".to_vec(), b"BETA".to_vec(), b"ZETA.TXT".to_vec()]);
    assert_eq!(pf.selected, 0);
    assert_eq!(pf.handle_rotary_encoder(None, 2), Ok(None));
    assert_eq!(pf.selected, 2);
    assert_eq!(pf.handle_rotary_encoder(Some(150), 0), Ok(Some(buf_from_slice(b"ZETA.TXT"))));
    assert_eq!(pf.handle_rotary_encoder(Some(50), -10), Ok(None));
    assert_eq!(pf.selected, 0);
    assert_eq!(pf.handle_rotary_encoder(None, 10), Ok(None));
    assert_eq!(pf.selected, 3);
    assert_eq!(pf.handle_rotary_encoder(Some(150), 0), Err(AppError::ProjectFileError));
}

#[test]
fn project_files_empty_is_error() {
    assert!(matches!(ProjectFiles::new(NameList::new()), Err(AppError::ProjectFileError)));
}

#[test]
fn sticky_error_first_wins() {
    let mut ps = PS::new();
    assert!(matches!(ps.ui, UI::UILoading(_)));
    ps.show_error(AppError::SDError);
    ps.show_error(AppError::ParseError);
    assert_eq!(ps.error, Some(AppError::SDError));
    ps.clear_error();
    assert_eq!(ps.error, None);
    ps.set_ui_usb_serial();
    assert!(matches!(ps.ui, UI::USSBSerial));
    ps.set_ui_info_screen();
    assert!(matches!(ps.ui, UI::InfoScreen(_)));
    ps.set_ui_loading("x");
    assert!(matches!(ps.ui, UI::UILoading("x")));
    assert_eq!(AppError::UsbSerialError.name(), "UsbSerialError");
}

#[test]
fn on_off_replaces_pending_command() {
    let mut is = InfoScreen::new();
    is.ch1.out = Some(false);
    is.ch2.out = Some(true);
    let mut cmd = buf_from_slice(b"VSET 1 3.000;");
    is.handle_on_off_button(&mut cmd);
    assert_eq!(buf_to_vec(&cmd), b"OUT 1 0;OUT 2 0;".to_vec());
}

#[test]
fn press_of_exactly_load_threshold_loads() {
    let mut pf = ProjectFiles::new(list(&["A"])).ok().unwrap();
    assert_eq!(pf.handle_rotary_encoder(Some(100), 0), Ok(Some(buf_from_slice(b"A"))));
    assert_eq!(pf.handle_rotary_encoder(Some(99), 0), Ok(None));
}

#[test]
fn project_files_drop_repeated_names() {
    let pf = ProjectFiles::new(list(&["B", "A", "B", "A"]));
    let pf = pf.ok().unwrap();
    assert_eq!(names_of(&pf.fnames), vec![b"A".to_vec(), b"B".to_vec()]);
}
