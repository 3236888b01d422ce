use nestdbg::addr2line::{
    contains, detect_toolchain, get_addr2line, Addr2lineError, ErrorKind, Toolchain,
};
use nestdbg::app::Application;
use nestdbg::config::{Connection, ConnectionConfig, Ipv4Address};
use nestdbg::message::{Message, MessageType};
use nestdbg::popup::Popup;
use nestdbg::ui::{
    centered_rect, popup_area_with_height, render_popup, Constraint, PICKER_WIDTH_PERCENT,
};

fn registry() -> ConnectionConfig {
    let mut config = ConnectionConfig::new();
    config.add_connection("switch".to_string(), Ipv4Address::new(10, 0, 0, 5));
    config.add_connection("3ds".to_string(), Ipv4Address::new(10, 0, 0, 6));
    config
}

#[test]
fn message_constructors() {
    let message = Message::new(MessageType::SendInput, Some("ls".to_string()));
    assert_eq!(message.message_type, MessageType::SendInput);
    assert_eq!(message.content, Some("ls".to_string()));
    let message = Message::new(MessageType::Quit, None);
    assert_eq!(message.message_type, MessageType::Quit);
    assert!(message.content.is_none());

    let message = Message::send_input("status".to_string());
    assert_eq!(message.message_type, MessageType::SendInput);
    assert_eq!(message.content, Some("status".to_string()));

    let message = Message::show_popup();
    assert_eq!(message.message_type, MessageType::ShowPopup);
    assert!(message.content.is_none());

    let message = Message::none();
    assert_eq!(message.message_type, MessageType::Noop);
    assert!(message.content.is_none());

    let message = Message::quit();
    assert_eq!(message.message_type, MessageType::Quit);
    assert!(message.content.is_none());
}

#[test]
fn popup_defaults_and_size() {
    let popup = Popup::new("Help");
    assert_eq!(popup.title, "Help");
    assert_eq!(popup.content, "");
    assert_eq!(popup.width_percent, 60);
    assert_eq!(popup.height_percent, 40);
    let popup = popup.with_size(80, 25);
    assert_eq!(popup.title, "Help");
    assert_eq!(popup.content, "");
    assert_eq!(popup.width_percent, 80);
    assert_eq!(popup.height_percent, 25);
}

#[test]
fn popup_layout_is_centred() {
    let layout = Popup::new("Help").layout();
    assert_eq!(
        layout.vertical,
        [Constraint::Percentage(30), Constraint::Percentage(40), Constraint::Percentage(30)]
    );
    assert_eq!(
        layout.horizontal,
        [Constraint::Percentage(20), Constraint::Percentage(60), Constraint::Percentage(20)]
    );
}

#[test]
fn centred_margins_round_down_and_stop_at_nothing() {
    let layout = centered_rect(55, 100);
    assert_eq!(
        layout.horizontal,
        [Constraint::Percentage(22), Constraint::Percentage(55), Constraint::Percentage(22)]
    );
    assert_eq!(
        layout.vertical,
        [Constraint::Percentage(0), Constraint::Percentage(100), Constraint::Percentage(0)]
    );
    let layout = centered_rect(0, 250);
    assert_eq!(
        layout.horizontal,
        [Constraint::Percentage(50), Constraint::Percentage(0), Constraint::Percentage(50)]
    );
    assert_eq!(
        layout.vertical,
        [Constraint::Percentage(0), Constraint::Percentage(250), Constraint::Percentage(0)]
    );
}

#[test]
fn popup_of_a_height_is_centred_in_the_rows() {
    let layout = popup_area_with_height(24, 50, 4);
    assert_eq!(
        layout.vertical,
        [Constraint::Length(10), Constraint::Length(4), Constraint::Length(10)]
    );
    assert_eq!(
        layout.horizontal,
        [Constraint::Percentage(25), Constraint::Percentage(50), Constraint::Percentage(25)]
    );
    let layout = popup_area_with_height(25, 50, 4);
    assert_eq!(
        layout.vertical,
        [Constraint::Length(10), Constraint::Length(4), Constraint::Length(11)]
    );
    let layout = popup_area_with_height(3, 50, 4);
    assert_eq!(
        layout.vertical,
        [Constraint::Length(0), Constraint::Length(4), Constraint::Length(0)]
    );
    let layout = popup_area_with_height(u16::MAX, 50, u16::MAX);
    assert_eq!(
        layout.vertical,
        [Constraint::Length(0), Constraint::Length(u16::MAX), Constraint::Length(0)]
    );
}

#[test]
fn picker_lists_the_registry_with_one_row_highlighted() {
    let config = registry();
    let picker = render_popup(1, config.get_connections());
    assert_eq!(picker.height, 4);
    assert_eq!(picker.rows.len(), 2);
    assert_eq!(picker.rows[0].name, "switch");
    assert_eq!(picker.rows[0].address, Ipv4Address::new(10, 0, 0, 5));
    assert!(!picker.rows[0].selected);
    assert_eq!(picker.rows[1].name, "3ds");
    assert_eq!(picker.rows[1].address, Ipv4Address::new(10, 0, 0, 6));
    assert!(picker.rows[1].selected);
    assert_eq!(PICKER_WIDTH_PERCENT, 50);
}

#[test]
fn picker_of_no_rows_is_only_its_border() {
    let picker = render_popup(0, &Vec::<Connection>::new());
    assert_eq!(picker.height, 2);
    assert!(picker.rows.is_empty());
    let config = registry();
    let picker = render_popup(9, config.get_connections());
    assert!(picker.rows.iter().all(|row| !row.selected));
}

#[test]
fn frame_shows_the_state() {
    let mut app: Application<u32> = Application::new(registry());
    app.input = "stat".to_string();
    app.log = vec!["one".to_string(), "two".to_string()];
    app.globals = vec!["g".to_string()];
    let frame = app.draw();
    assert_eq!(frame.status, "[Disconnected]");
    assert_eq!(frame.input, "~> stat");
    assert_eq!(frame.log, vec!["one".to_string(), "two".to_string()]);
    assert_eq!(frame.globals, vec!["g".to_string()]);
    assert!(frame.picker.is_none());

    app.show_popup = true;
    app.selected_connection = 1;
    let frame = app.draw();
    let picker = frame.picker.expect("the picker is shown");
    assert_eq!(picker.height, 4);
    let shown: Vec<(String, bool)> =
        picker.rows.iter().map(|row| (row.name.clone(), row.selected)).collect();
    assert_eq!(shown, vec![("switch".to_string(), false), ("3ds".to_string(), true)]);
}

#[test]
fn frame_shows_the_spinner_of_the_current_tick() {
    let mut app: Application<u32> = Application::new(registry());
    app.tick = 12;
    app.show_popup = true;
    app.apply(nestdbg::input::Intent::ConfirmSelection);
    assert_eq!(app.draw().status, "[\u{2839}Connecting to switch...]");
    app.advance_tick();
    assert_eq!(app.draw().status, "[\u{2838}Connecting to switch...]");
    assert_eq!(app.draw().input, "~> ");
}

#[test]
fn search_finds_bytes_anywhere() {
    assert!(contains(b"abcdef", b"abc"));
    assert!(contains(b"abcdef", b"cde"));
    assert!(contains(b"abcdef", b"def"));
    assert!(contains(b"abcdef", b"abcdef"));
    assert!(contains(b"aab", b"ab"));
    assert!(contains(b"abc", b""));
    assert!(contains(b"", b""));
    assert!(!contains(b"abcdef", b"abd"));
    assert!(!contains(b"abc", b"abcd"));
    assert!(!contains(b"", b"a"));
    assert!(!contains(b"ababab", b"bb"));
}

#[test]
fn toolchain_is_chosen_by_its_mark() {
    assert_eq!(detect_toolchain(b"\x7fELF..3dsx_crt0.o.."), Ok(Toolchain::Arm));
    assert_eq!(detect_toolchain(b"switch_crt0.o"), Ok(Toolchain::Aarch64));
    assert_eq!(detect_toolchain(b"xx crt0_rpx.o yy"), Ok(Toolchain::PowerPc));
}

#[test]
fn earlier_toolchains_win() {
    assert_eq!(detect_toolchain(b"crt0_rpx.o switch_crt0.o"), Ok(Toolchain::Aarch64));
    assert_eq!(detect_toolchain(b"crt0_rpx.o switch_crt0.o 3dsx_crt0.o"), Ok(Toolchain::Arm));
}

#[test]
fn files_without_a_mark_are_refused() {
    assert_eq!(detect_toolchain(b""), Err(Addr2lineError::EmptyFile));
    assert_eq!(detect_toolchain(b"\x7fELF"), Err(Addr2lineError::NoToolchain));
    assert_eq!(detect_toolchain(b"3dsx_crt0.0 switch_crt0"), Err(Addr2lineError::NoToolchain));
}

#[test]
fn command_of_each_toolchain() {
    assert_eq!(
        get_addr2line(Toolchain::Arm, true),
        Ok(("arm-none-eabi-addr2line".to_string(), "-aipfCe arm -e".to_string()))
    );
    assert_eq!(
        get_addr2line(Toolchain::Aarch64, true),
        Ok(("aarch64-none-elf-addr2line".to_string(), "-aipfCe  -e".to_string()))
    );
    assert_eq!(
        get_addr2line(Toolchain::PowerPc, true),
        Ok(("powerpc-eabi-addr2line".to_string(), "-aipfCe  -e".to_string()))
    );
    assert_eq!(
        get_addr2line(Toolchain::PowerPc, false),
        Err(Addr2lineError::NotInstalled(Toolchain::PowerPc))
    );
    assert_eq!(Toolchain::Arm.binary(), "arm-none-eabi-addr2line");
}

#[test]
fn resolver_errors_have_kinds_and_lines() {
    assert_eq!(Addr2lineError::NotAFile.kind(), ErrorKind::NotFound);
    assert_eq!(Addr2lineError::EmptyFile.kind(), ErrorKind::InvalidData);
    assert_eq!(Addr2lineError::NoToolchain.kind(), ErrorKind::NotFound);
    assert_eq!(Addr2lineError::NotInstalled(Toolchain::Arm).kind(), ErrorKind::NotFound);
    assert_eq!(
        Addr2lineError::NotAFile.message("\"a.elf\""),
        "File not found or not a file: \"a.elf\""
    );
    assert_eq!(Addr2lineError::EmptyFile.message("\"a.elf\""), "File is empty: \"a.elf\"");
    assert_eq!(
        Addr2lineError::NoToolchain.message("\"a.elf\""),
        "No suitable addr2line binary found"
    );
    assert_eq!(
        Addr2lineError::NotInstalled(Toolchain::Aarch64).message("\"a.elf\""),
        "aarch64-none-elf-addr2line not found"
    );
}

#[test]
fn picker_height_stops_at_the_largest_number_of_rows() {
    let many: Vec<Connection> = (0..65534u32)
        .map(|i| Connection::new(i.to_string(), Ipv4Address::new(10, 0, 0, 1)))
        .collect();
    assert_eq!(render_popup(0, &many).height, u16::MAX);
    assert_eq!(render_popup(0, &many[..65533].iter().map(copy).collect()).height, u16::MAX);
    assert_eq!(render_popup(0, &many[..65532].iter().map(copy).collect()).height, 65534);
}

fn copy(connection: &Connection) -> Connection {
    Connection::new(connection.name.clone(), connection.address)
}
