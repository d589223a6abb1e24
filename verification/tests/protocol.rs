use mt5_rs::decode::{decode_book_ack, decode_build, decode_login, decode_select, version_from, decode_terminal_info};
use mt5_rs::protocol::{add_unique_path, frame_request, is_terminal_exe, reply_data, reply_payload_len};
use mt5_rs::Mt5Error;

#[test]
fn frame_carries_length_command_and_payload() {
    let frame = frame_request(170, &[9, 8, 7]);
    assert_eq!(frame, vec![7, 0, 0, 0, 170, 0, 0, 0, 9, 8, 7]);
    assert_eq!(frame_request(190, &[]), vec![4, 0, 0, 0, 190, 0, 0, 0]);
}

#[test]
fn reply_length_below_header_is_refused() {
    assert_eq!(reply_payload_len(&12u32.to_le_bytes()).unwrap(), 12);
    assert_eq!(reply_payload_len(&8u32.to_le_bytes()).unwrap(), 8);
    match reply_payload_len(&7u32.to_le_bytes()) {
        Err(Mt5Error::InvalidResponse(m)) => assert_eq!(m, "Payload too small: 7 bytes"),
        other => panic!("unexpected {:?}", other),
    }
}

#[test]
fn reply_data_drops_the_header() {
    assert_eq!(reply_data(&[190, 0, 0, 0, 1, 0, 0, 0, 42, 43]), vec![42, 43]);
    assert!(reply_data(&[190, 0, 0, 0, 1, 0, 0, 0]).is_empty());
}

#[test]
fn terminal_process_names() {
    let mut padded = "Terminal64.EXE".to_string();
    padded.push_str("\0\0\0");
    assert!(is_terminal_exe(&padded));
    assert!(is_terminal_exe("terminal64.exe"));
    assert!(!is_terminal_exe("terminal.exe"));
    assert!(!is_terminal_exe("metaeditor64.exe\0"));
}

#[test]
fn paths_are_kept_once_in_first_seen_order() {
    let mut paths = Vec::new();
    add_unique_path(&mut paths, "C:\\a\\terminal64.exe".to_string());
    add_unique_path(&mut paths, "D:\\b\\terminal64.exe".to_string());
    add_unique_path(&mut paths, "C:\\a\\terminal64.exe".to_string());
    assert_eq!(paths, vec!["C:\\a\\terminal64.exe".to_string(), "D:\\b\\terminal64.exe".to_string()]);
}

#[test]
fn small_replies() {
    assert!(decode_login(&0u32.to_le_bytes()).is_ok());
    assert!(matches!(decode_login(&[0, 0]), Err(Mt5Error::InvalidResponse(_))));
    assert_eq!(decode_select(&[]).unwrap(), true);
    assert_eq!(decode_select(&0u32.to_le_bytes()).unwrap(), false);
    assert_eq!(decode_select(&(-1i32).to_le_bytes()).unwrap(), true);
    assert!(decode_select(&[1]).is_err());
    assert_eq!(decode_book_ack(&[]).unwrap(), true);
    assert_eq!(decode_book_ack(&0u32.to_le_bytes()).unwrap(), true);
    assert_eq!(decode_book_ack(&5u32.to_le_bytes()).unwrap(), false);
    assert!(decode_book_ack(&[1, 2, 3]).is_err());
    assert_eq!(decode_build(&6090u32.to_le_bytes()), Some(6090));
    assert_eq!(decode_build(&[1, 2]), None);
}

#[test]
fn version_reports_api_500_and_build() {
    let mut payload = vec![0u8; 40];
    payload[0..2].copy_from_slice(&5836u16.to_le_bytes());
    let info = decode_terminal_info(&payload).unwrap();
    let v = version_from(&info);
    assert_eq!(v.version, 500);
    assert_eq!(v.build, 5836);
    assert!(v.build_date.is_empty());
}

#[test]
fn error_messages() {
    assert_eq!(Mt5Error::NotInitialized.message(), "MT5 not initialized");
    assert_eq!(Mt5Error::InvalidResponse("x".into()).message(), "Invalid response: x");
    assert_eq!(
        Mt5Error::CommandFailed { cmd: 100, error: "bad".into() }.message(),
        "Command failed: cmd=100, error=bad"
    );
    let io = Mt5Error::IoError(std::io::Error::new(std::io::ErrorKind::Other, "gone"));
    assert_eq!(io.message(), "IO error: gone");
}
