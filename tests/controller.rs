use ps_gpib::buf::{buf_from_slice, buf_to_vec, ByteBuf, NameList};
use ps_gpib::button::Button;
use ps_gpib::controller::{echo_line, handle_input, IdleLoop};
use ps_gpib::error::AppError;
use ps_gpib::model::{InfoScreen, Reading, UI};
use ps_gpib::protocol::{Channel, ChannelHeader, Query};

fn list(names: &[&str]) -> NameList {
    let mut l = NameList::new();
    for n in names {
        l.push(buf_from_slice(n.as_bytes())).unwrap();
    }
    l
}

fn names_of(l: &NameList) -> Vec<Vec<u8>> {
    l.iter().map(buf_to_vec).collect()
}


const MS: u32 = 72_000;

fn booted() -> IdleLoop {
    let mut il = IdleLoop::new();
    il.finish_loading();
    il
}

fn idle_buttons() -> (Button, Button) {
    (Button::new(true, 0), Button::new(true, 0))
}

fn info(il: &IdleLoop) -> InfoScreen {
    match &il.ps.ui {
        UI::InfoScreen(is) => *is,
        _ => panic!("not on the info screen"),
    }
}

#[test]
fn boot_ends_on_info_screen() {
    let mut il = IdleLoop::new();
    assert!(matches!(il.ps.ui, UI::UILoading(_)));
    let (mut bp, mut be) = idle_buttons();
    let mut q = None;
    let a = il.handle_state(0, 0, &mut bp, &mut be, &mut q);
    assert!(a.uart_out.is_empty() && a.usb_out.is_empty());
    il.uart_line_buf = buf_from_slice(b"stale");
    let mut rx = buf_from_slice(b"junk\r\nmore");
    il.drain_uart_rx(&mut rx);
    assert!(!il.uart_eol);
    assert!(il.uart_line_buf.is_empty());
    assert_eq!(buf_to_vec(&rx), b"more".to_vec());
    il.finish_loading();
    assert_eq!(info(&il), InfoScreen::new());
}

#[test]
fn usb_line_switches_to_passthrough() {
    let mut il = booted();
    let mut q = Some(Query { header: ChannelHeader::Vout, channel: Channel::Ch1 });
    let mut usb_rx = buf_from_slice(b"X\r\n");
    let mut uart_rx: ByteBuf = ByteBuf::new();
    assert!(il.try_read_lines(&mut usb_rx, &mut uart_rx, &mut q));
    assert!(matches!(il.ps.ui, UI::USSBSerial));
    assert_eq!(q, None);
    let (mut bp, mut be) = idle_buttons();
    let a = il.handle_state(0, 0, &mut bp, &mut be, &mut q);
    assert_eq!(buf_to_vec(&a.uart_out), b"X\r\n".to_vec());

    let mut usb_rx = ByteBuf::new();
    let mut uart_rx = buf_from_slice(b"12.345\r\nVOUT 2\r\n");
    assert!(!il.try_read_lines(&mut usb_rx, &mut uart_rx, &mut q));
    let a = il.handle_state(0, 0, &mut bp, &mut be, &mut q);
    assert_eq!(buf_to_vec(&a.usb_out), b"12.345\r\n".to_vec());
    assert!(a.uart_out.is_empty());
    let mut usb_rx = ByteBuf::new();
    let mut empty = ByteBuf::new();
    il.try_read_lines(&mut usb_rx, &mut empty, &mut q);
    let _ = uart_rx;
    assert!(matches!(il.ps.ui, UI::USSBSerial));
}

#[test]
fn passthrough_forwards_following_lines_unmodified() {
    let mut il = booted();
    let mut q = None;
    let mut usb_rx = buf_from_slice(b"X\r\n");
    let mut uart_rx = ByteBuf::new();
    il.try_read_lines(&mut usb_rx, &mut uart_rx, &mut q);
    let (mut bp, mut be) = idle_buttons();
    il.handle_state(0, 0, &mut bp, &mut be, &mut q);
    let mut uart_rx = buf_from_slice(b"A 1\r\nB\t2\r\n");
    let mut got: Vec<u8> = Vec::new();
    for _ in 0..3 {
        let mut usb_rx = ByteBuf::new();
        il.try_read_lines(&mut usb_rx, &mut uart_rx, &mut q);
        let a = il.handle_state(0, 0, &mut bp, &mut be, &mut q);
        got.extend_from_slice(&buf_to_vec(&a.usb_out));
    }
    assert_eq!(got, b"A 1\r\nB\t2\r\n".to_vec());
    assert_eq!(uart_rx.len(), 0);
}

#[test]
fn response_sets_reading_and_echoes() {
    let mut il = booted();
    let (mut bp, mut be) = idle_buttons();
    let mut q = Some(Query { header: ChannelHeader::Vout, channel: Channel::Ch1 });
    let a = il.handle_state(0, 10, &mut bp, &mut be, &mut q);
    assert_eq!(buf_to_vec(&a.uart_out), b"VOUT? 1\r\n++read eoi\r\n".to_vec());
    assert!(il.query_sent);
    let mut usb_rx = ByteBuf::new();
    let mut uart_rx = buf_from_slice(b"5.000\r\n");
    il.try_read_lines(&mut usb_rx, &mut uart_rx, &mut q);
    let a = il.handle_state(0, 20, &mut bp, &mut be, &mut q);
    assert_eq!(info(&il).ch1.vout, Some(5000));
    assert_eq!(buf_to_vec(&a.usb_out), b"VOUT? 1\t5.000\r\n".to_vec());
    assert_eq!(q, None);
    assert!(!il.query_sent);
}

#[test]
fn bad_response_is_shown_as_error() {
    let mut il = booted();
    let (mut bp, mut be) = idle_buttons();
    let mut q = Some(Query { header: ChannelHeader::Iout, channel: Channel::Ch2 });
    il.handle_state(0, 10, &mut bp, &mut be, &mut q);
    let mut usb_rx = ByteBuf::new();
    let mut uart_rx = buf_from_slice(b"?!\r\n");
    il.try_read_lines(&mut usb_rx, &mut uart_rx, &mut q);
    let a = il.handle_state(0, 20, &mut bp, &mut be, &mut q);
    assert_eq!(il.ps.error, Some(AppError::ParseError));
    assert!(a.usb_out.is_empty());
    assert_eq!(q, None);
}

#[test]
fn pending_command_sent_when_no_query() {
    let mut il = booted();
    let (mut bp, mut be) = idle_buttons();
    let mut q = None;
    il.cmdbuf = buf_from_slice(b"VSET 1 1.000;");
    let a = il.handle_state(0, 10, &mut bp, &mut be, &mut q);
    assert_eq!(buf_to_vec(&a.uart_out), b"VSET 1 1.000;".to_vec());
    assert!(il.cmdbuf.is_empty());
}

#[test]
fn long_pause_press_opens_sorted_files() {
    let mut il = booted();
    let (mut bp, mut be) = idle_buttons();
    bp.poll(false, 10 * MS);
    bp.poll(true, 760 * MS);
    let mut q = Some(Query { header: ChannelHeader::Vset, channel: Channel::Ch1 });
    let a = il.handle_state(0, 800 * MS, &mut bp, &mut be, &mut q);
    assert!(a.list_files);
    il.enter_project_files(list(&["PROJ2", "BOOT", "A1"]), &mut q);
    assert_eq!(q, None);
    match &il.ps.ui {
        UI::ProjectFiles(pf) => {
            assert_eq!(names_of(&pf.fnames), vec![b"A1".to_vec(), b"BOOT".to_vec(), b"PROJ2".to_vec()]);
            assert_eq!(pf.selected, 0);
        }
        _ => panic!("not browsing files"),
    }
}

#[test]
fn empty_file_list_is_error() {
    let mut il = booted();
    let mut q = None;
    il.enter_project_files(NameList::new(), &mut q);
    assert_eq!(il.ps.error, Some(AppError::ProjectFileError));
    assert!(matches!(il.ps.ui, UI::InfoScreen(_)));
}

#[test]
fn encoder_press_in_browser_loads_file() {
    let mut il = booted();
    let mut q = None;
    il.enter_project_files(list(&["B", "A"]), &mut q);
    let (mut bp, mut be) = idle_buttons();
    il.handle_state(1, 0, &mut bp, &mut be, &mut q);
    be.poll(false, 10 * MS);
    be.poll(true, 200 * MS);
    let a = il.handle_state(0, 300 * MS, &mut bp, &mut be, &mut q);
    assert_eq!(a.load_file, Some(buf_from_slice(b"B")));
    assert!(matches!(il.ps.ui, UI::UILoading(_)));
    il.finish_loading();
    assert!(matches!(il.ps.ui, UI::InfoScreen(_)));
}

#[test]
fn short_pause_press_toggles_outputs() {
    let mut il = booted();
    if let UI::InfoScreen(is) = &mut il.ps.ui {
        is.ch1.out = Some(false);
        is.ch2.out = Some(false);
    }
    let (mut bp, mut be) = idle_buttons();
    bp.poll(false, 10 * MS);
    bp.poll(true, 160 * MS);
    let mut q = None;
    let a = il.handle_state(0, 200 * MS, &mut bp, &mut be, &mut q);
    assert!(!a.list_files);
    assert_eq!(buf_to_vec(&a.uart_out), b"OUT 1 1;OUT 2 1;".to_vec());
    assert_eq!(info(&il).ch1.out, None);
}

#[test]
fn turning_while_held_is_no_click() {
    let mut il = booted();
    if let UI::InfoScreen(is) = &mut il.ps.ui {
        is.ch1.vset = Some(1000);
        is.ch1.iset = Some(100);
        is.ch2.vset = Some(1000);
        is.ch2.iset = Some(100);
    }
    let (mut bp, mut be) = idle_buttons();
    be.poll(false, 10 * MS);
    let mut q = None;
    let a = il.handle_state(2, 200 * MS, &mut bp, &mut be, &mut q);
    assert_eq!(buf_to_vec(&a.uart_out), b"VSET 1 3.000;VSET 2 3.000;".to_vec());
    be.poll(true, 400 * MS);
    il.handle_state(0, 500 * MS, &mut bp, &mut be, &mut q);
    assert_eq!(info(&il).chsel, ps_gpib::model::ChSelected::Both);
    assert_eq!(info(&il).vsel, ps_gpib::model::VarSelected::V);
}

#[test]
fn input_handling_without_press() {
    let mut is = InfoScreen::new();
    let mut cmd = ByteBuf::new();
    assert!(!handle_input(&mut is, &mut cmd, None, None, false, 0, 5));
    assert!(handle_input(&mut is, &mut cmd, Some(900), None, false, 0, 5));
}

#[test]
fn echo_line_text() {
    let q = Query { header: ChannelHeader::Out, channel: Channel::Ch2 };
    assert_eq!(buf_to_vec(&echo_line(&q, Reading::Flag(true))), b"OUT? 2\t1\r\n".to_vec());
    let q = Query { header: ChannelHeader::Iset, channel: Channel::Ch1 };
    assert_eq!(buf_to_vec(&echo_line(&q, Reading::Milli(250))), b"ISET? 1\t0.250\r\n".to_vec());
}
