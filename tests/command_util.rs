use command_util::capture::{drain_reads, DrainStep, OutputStream, StreamCapture};
use command_util::config::{update_port, Config, PortEntry, PortKind, ProgramDir};
use command_util::decode::{decode_bytes, TextEncoding};
use command_util::engine::{finish_execution, plan_command, ExecError};
use command_util::report::{command_line_text, logs_command_line, status_message, LogLevel};

fn capture_of(stream: OutputStream, chunks: &[&[u8]]) -> StreamCapture {
    let mut capture = StreamCapture::new(stream, TextEncoding::Utf8Lossy);
    for chunk in chunks {
        capture.on_read(chunk);
    }
    assert_eq!(capture.on_read(&[]), DrainStep::Finished);
    capture
}

#[test]
fn utf8_decoding_keeps_valid_text() {
    assert_eq!(decode_bytes(TextEncoding::Utf8Lossy, b"hello"), "hello");
    assert_eq!(decode_bytes(TextEncoding::Utf8Lossy, "héllo".as_bytes()), "héllo");
}

#[test]
fn utf8_decoding_replaces_invalid_bytes() {
    assert_eq!(decode_bytes(TextEncoding::Utf8Lossy, &[b'a', 0xFF, b'b']), "a\u{FFFD}b");
}

#[test]
fn gbk_decoding_reads_chinese_text() {
    assert_eq!(decode_bytes(TextEncoding::Gbk, &[0xC4, 0xE3, 0xBA, 0xC3]), "你好");
    assert_eq!(decode_bytes(TextEncoding::Gbk, b"OK"), "OK");
}

#[test]
fn decoding_empty_input_gives_empty_text() {
    assert_eq!(decode_bytes(TextEncoding::Gbk, &[]), "");
    assert_eq!(decode_bytes(TextEncoding::Utf8Lossy, &[]), "");
}

#[test]
fn stdout_chunk_is_appended_with_progress() {
    let mut capture = StreamCapture::new(OutputStream::Stdout, TextEncoding::Utf8Lossy);
    assert_eq!(capture.text(), "");
    assert_eq!(capture.on_read(b"hello\n"), DrainStep::AppendedWithProgress);
    assert_eq!(capture.text(), "hello\n\n");
    assert!(!capture.is_finished());
    assert_eq!(capture.on_read(b""), DrainStep::Finished);
    assert!(capture.is_finished());
    assert_eq!(capture.into_text(), "hello\n\n");
}

#[test]
fn stderr_chunk_is_appended_without_progress() {
    let mut capture = StreamCapture::new(OutputStream::Stderr, TextEncoding::Utf8Lossy);
    assert_eq!(capture.on_read(b"warn"), DrainStep::Appended);
    assert_eq!(capture.on_read(b"ing"), DrainStep::Appended);
    assert_eq!(capture.text(), "warn\ning\n");
}

#[test]
fn read_error_ends_capture_and_keeps_text() {
    let mut capture = StreamCapture::new(OutputStream::Stdout, TextEncoding::Utf8Lossy);
    capture.on_read(b"part");
    capture.on_read_error();
    assert!(capture.is_finished());
    assert_eq!(capture.text(), "part\n");
}

#[test]
fn drain_stops_at_first_empty_read() {
    let reads = vec![b"ab".to_vec(), b"cd".to_vec(), Vec::new(), b"ef".to_vec()];
    let (text, count) = drain_reads(OutputStream::Stdout, TextEncoding::Utf8Lossy, &reads);
    assert_eq!(text, "ab\ncd\n");
    assert_eq!(count, 2);
}

#[test]
fn drain_without_end_reads_everything() {
    let reads = vec![b"x".to_vec(), b"y".to_vec()];
    let (text, count) = drain_reads(OutputStream::Stderr, TextEncoding::Utf8Lossy, &reads);
    assert_eq!(text, "x\ny\n");
    assert_eq!(count, 2);
}

#[test]
fn large_output_is_captured_whole() {
    let chunk = vec![b'z'; 4096];
    let reads: Vec<Vec<u8>> = (0..64).map(|_| chunk.clone()).collect();
    let (text, count) = drain_reads(OutputStream::Stdout, TextEncoding::Utf8Lossy, &reads);
    assert_eq!(count, 64);
    assert_eq!(text.len(), 64 * 4097);
    assert_eq!(text.chars().filter(|c| *c == 'z').count(), 64 * 4096);
}

#[test]
fn success_text_is_decoded_stdout() {
    let out = capture_of(OutputStream::Stdout, &[b"line one\n", b"line two\n"]);
    let err = capture_of(OutputStream::Stderr, &[b"noise"]);
    let result = finish_execution(true, out, err);
    assert_eq!(result.unwrap(), "line one\n\nline two\n\n");
}

#[test]
fn repeated_runs_give_equal_results() {
    let reads = vec![b"same output".to_vec()];
    let first = drain_reads(OutputStream::Stdout, TextEncoding::Utf8Lossy, &reads);
    let second = drain_reads(OutputStream::Stdout, TextEncoding::Utf8Lossy, &reads);
    assert_eq!(first, second);
    let a = finish_execution(true, capture_of(OutputStream::Stdout, &[b"same output"]), capture_of(OutputStream::Stderr, &[]));
    let b = finish_execution(true, capture_of(OutputStream::Stdout, &[b"same output"]), capture_of(OutputStream::Stderr, &[]));
    assert_eq!(a.unwrap(), b.unwrap());
}

#[test]
fn echo_success_scenario() {
    let out = capture_of(OutputStream::Stdout, &[b"hello\n"]);
    let err = capture_of(OutputStream::Stderr, &[]);
    let text = finish_execution(true, out, err).unwrap();
    assert!(text.contains("hello"));
}

#[test]
fn failure_with_stderr_scenario() {
    let out = capture_of(OutputStream::Stdout, &[b"some progress"]);
    let err = capture_of(OutputStream::Stderr, &[b"disk full"]);
    match finish_execution(false, out, err) {
        Err(e) => {
            assert!(matches!(e, ExecError::Failed(_)));
            assert_eq!(e.message().trim_end(), "disk full");
        }
        Ok(_) => panic!("a failed run must not succeed"),
    }
}

#[test]
fn failure_without_stderr_scenario() {
    let out = capture_of(OutputStream::Stdout, &[b"partial result"]);
    let err = capture_of(OutputStream::Stderr, &[]);
    match finish_execution(false, out, err) {
        Err(e) => assert_eq!(e.message().trim_end(), "partial result"),
        Ok(_) => panic!("a failed run must not succeed"),
    }
}

#[test]
fn spawn_error_scenario() {
    let plan = plan_command(&["/nonexistent/binary"]).ok().unwrap();
    assert_eq!(plan.program, "/nonexistent/binary");
    let e = ExecError::Spawn("No such file or directory (os error 2)".to_string());
    assert_eq!(e.message(), "Failed to spawn command: No such file or directory (os error 2)");
}

#[test]
fn empty_command_is_refused() {
    match plan_command(&[]) {
        Err(e) => {
            assert!(matches!(e, ExecError::EmptyCommand));
            assert_eq!(e.message(), "[Error] cmd is empty");
        }
        Ok(_) => panic!("an empty command must be refused"),
    }
}

#[test]
fn command_is_split_into_program_and_arguments() {
    let plan = plan_command(&["fh_loader", "--port=COM3", "--noprompt"]).ok().unwrap();
    assert_eq!(plan.program, "fh_loader");
    assert_eq!(plan.args, vec!["--port=COM3".to_string(), "--noprompt".to_string()]);
}

#[test]
fn other_error_messages() {
    assert_eq!(ExecError::StdoutPipe.message(), "[Error] Failed to capture stdout");
    assert_eq!(ExecError::StderrPipe.message(), "[Error] Failed to capture stderr");
    assert_eq!(ExecError::Wait("gone".to_string()).message(), "Failed to wait for command: gone");
}

#[test]
fn command_line_is_logged_with_leading_spaces() {
    assert_eq!(command_line_text(&["tool", "-a", "b"]), " tool -a b");
    assert_eq!(command_line_text(&[]), "");
}

#[test]
fn status_messages() {
    assert_eq!(status_message("Flash", true), "Flash...OK");
    assert_eq!(status_message("Flash", false), "Flash...Error");
}

#[test]
fn only_debug_logs_command_line() {
    assert!(logs_command_line(LogLevel::Debug));
    assert!(!logs_command_line(LogLevel::Info));
}

fn port(name: &str, kind: PortKind) -> PortEntry {
    PortEntry { port_name: name.to_string(), kind }
}

#[test]
fn no_usb_port_is_not_found() {
    let ports = vec![port("COM1", PortKind::Pci), port("COM2", PortKind::Bluetooth)];
    assert_eq!(update_port(&ports), ("Not found".to_string(), "N/A".to_string()));
    assert_eq!(update_port(&[]), ("Not found".to_string(), "N/A".to_string()));
}

#[test]
fn last_usb_port_is_picked() {
    let ports = vec![
        port("COM3", PortKind::Usb(Some("QDLoader".to_string()))),
        port("COM4", PortKind::Unknown),
        port("COM5", PortKind::Usb(None)),
    ];
    assert_eq!(update_port(&ports), ("COM5".to_string(), "QDLoader".to_string()));
}

#[test]
fn unset_config_without_device() {
    let c = Config::setup_env(true, "Not found", Some(&ProgramDir::Text("/opt/flash".to_string())));
    assert_eq!(c.port_path, "");
    assert_eq!(c.fh_loader_path, "");
    assert!(!c.is_connect);
    assert_eq!(c.log_level, LogLevel::Info);
    let d = Config::setup_env(true, "COM3", None);
    assert_eq!(d.current_dir, "");
    assert!(!d.is_connect);
}

#[test]
fn config_from_port_and_directory() {
    let c = Config::setup_env(true, "COM3", Some(&ProgramDir::Text("/opt/flash".to_string())));
    assert_eq!(c.port_path, "COM3");
    assert_eq!(c.fh_port_conn_str, r"--port=\\.\COM3");
    assert_eq!(c.sahara_port_conn_str, r"\\.\COM3");
    assert_eq!(c.fh_port_conn_str_linux, "--port=COM3");
    assert_eq!(c.sahara_port_conn_str_linux, "COM3");
    assert_eq!(c.current_dir, "/opt/flash");
    assert!(c.fh_loader_path.starts_with("/opt/flash"));
    assert!(c.fh_loader_path.ends_with("fh_loader.exe"));
    assert!(c.fh_loader_path.contains("tools"));
    assert_eq!(c.fh_loader_path, "/opt/flash/tools/fh_loader.exe");
    assert_eq!(c.sahara_server_path, "/opt/flash/tools/QSaharaServer.exe");
    assert_eq!(c.fh_loader_path_linux, "/opt/flash/tools/fh_loader");
    assert_eq!(c.sahara_server_path_linux, "/opt/flash/tools/QSaharaServer");
    assert!(c.is_connect);
    assert_eq!(c.log_level, LogLevel::Debug);
    let quiet = Config::setup_env(false, "ttyUSB0", Some(&ProgramDir::Text("/opt/flash".to_string())));
    assert_eq!(quiet.log_level, LogLevel::Info);
}

#[test]
fn non_unicode_directory_names_tools_bare() {
    let dir = ProgramDir::NonUnicode("/opt/fl\u{FFFD}sh".to_string());
    let c = Config::setup_env(false, "COM7", Some(&dir));
    assert_eq!(c.current_dir, "/opt/fl\u{FFFD}sh");
    assert_eq!(c.fh_loader_path, "fh_loader.exe");
    assert_eq!(c.sahara_server_path, "QSaharaServer.exe");
    assert_eq!(c.fh_loader_path_linux, "fh_loader");
    assert_eq!(c.sahara_server_path_linux, "QSaharaServer");
    assert_eq!(c.fh_port_conn_str_linux, "--port=COM7");
    assert!(c.is_connect);
}

#[test]
fn ascii_output_is_decoded_unchanged() {
    let bytes = b"Sahara protocol: OK 100%";
    assert_eq!(decode_bytes(TextEncoding::Gbk, bytes), "Sahara protocol: OK 100%");
    assert_eq!(decode_bytes(TextEncoding::Utf8Lossy, bytes), "Sahara protocol: OK 100%");
}

#[test]
fn fresh_captures_start_empty() {
    let mut first = StreamCapture::new(OutputStream::Stdout, TextEncoding::Utf8Lossy);
    first.on_read(b"run one");
    let second = StreamCapture::new(OutputStream::Stdout, TextEncoding::Utf8Lossy);
    assert_eq!(second.text(), "");
    assert_eq!(first.text(), "run one\n");
}
