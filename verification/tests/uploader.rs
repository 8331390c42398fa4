use std::cell::RefCell;

use prusa_connect_uploader::commands::capture_command;
use prusa_connect_uploader::commands::https_url;
use prusa_connect_uploader::commands::snapshot_path;
use prusa_connect_uploader::commands::upload_command;
use prusa_connect_uploader::config::Config;
use prusa_connect_uploader::cycle::cycle_report;
use prusa_connect_uploader::cycle::initial_delay;
use prusa_connect_uploader::cycle::CycleEvent;
use prusa_connect_uploader::decimal::u64_to_decimal;
use prusa_connect_uploader::messages::capture_failed_message;
use prusa_connect_uploader::messages::captured_message;
use prusa_connect_uploader::messages::upload_failed_message;
use prusa_connect_uploader::messages::uploaded_message;
use prusa_connect_uploader::messages::waiting_message;
use prusa_connect_uploader::messages::LogLevel;
use prusa_connect_uploader::tool::PrusaConnectUploaderLog;
use prusa_connect_uploader::tool::PrusaConnectUploaderTool;

fn test_config(interval: u64, debug: bool) -> Config {
    Config {
        interval,
        token: String::from("testtoken"),
        fingerprint: String::from("cam42"),
        debug,
        no_color: false,
    }
}

struct CollectingLogger {
    lines: RefCell<Vec<(String, String)>>,
}

impl CollectingLogger {
    fn new() -> CollectingLogger {
        CollectingLogger { lines: RefCell::new(Vec::new()) }
    }

    fn taken(&self) -> Vec<(String, String)> {
        self.lines.borrow().clone()
    }
}

impl PrusaConnectUploaderLog for CollectingLogger {
    fn output(&self, msg: &str) {
        self.lines.borrow_mut().push((String::from("output"), String::from(msg)));
    }
    fn warning(&self, msg: &str) {
        self.lines.borrow_mut().push((String::from("warning"), String::from(msg)));
    }
    fn error(&self, msg: &str) {
        self.lines.borrow_mut().push((String::from("error"), String::from(msg)));
    }
}

#[test]
fn decimal_zero() {
    assert_eq!(u64_to_decimal(0), "0");
}

#[test]
fn decimal_single_digit() {
    assert_eq!(u64_to_decimal(7), "7");
}

#[test]
fn decimal_two_digits() {
    assert_eq!(u64_to_decimal(10), "10");
}

#[test]
fn decimal_many_digits() {
    assert_eq!(u64_to_decimal(12345), "12345");
}

#[test]
fn decimal_largest() {
    assert_eq!(u64_to_decimal(u64::MAX), "18446744073709551615");
}

#[test]
fn snapshot_path_from_fingerprint() {
    assert_eq!(snapshot_path("cam42"), "/dev/shm/camera_cam42.jpg");
}

#[test]
fn endpoint_url() {
    assert_eq!(https_url(), "https://webcam.connect.prusa3d.com/c/snapshot");
}

#[test]
fn capture_command_arguments() {
    let args = capture_command("cam42");
    let expected = vec![
        "rpicam-still",
        "--immediate",
        "--nopreview",
        "--mode",
        "2592:1944:12:P",
        "--lores-width",
        "0",
        "--lores-height",
        "0",
        "--thumb",
        "none",
        "--output",
        "/dev/shm/camera_cam42.jpg",
    ];
    assert_eq!(args, expected);
}

#[test]
fn upload_command_arguments() {
    let cfg = test_config(10, false);
    let args = upload_command(&cfg, 12345);
    let expected = vec![
        "curl",
        "-X",
        "PUT",
        "https://webcam.connect.prusa3d.com/c/snapshot",
        "-H",
        "Accept: text/plain",
        "-H",
        "Content-type: image/jpg",
        "-H",
        "Fingerprint: cam42",
        "-H",
        "Token: testtoken",
        "-H",
        "Content-length: 12345",
        "--data-binary",
        "@/dev/shm/camera_cam42.jpg",
        "--no-progress-meter",
        "--compressed",
        "--max-time",
        "5",
    ];
    assert_eq!(args, expected);
}

#[test]
fn upload_command_verbose_in_debug_mode() {
    let cfg = test_config(10, true);
    let args = upload_command(&cfg, 1);
    assert_eq!(args.last().map(|s| s.as_str()), Some("--verbose"));
    assert_eq!(args.len(), 21);
}

#[test]
fn message_texts() {
    let m = capture_failed_message();
    assert_eq!(m.level, LogLevel::Error);
    assert_eq!(m.text, "Unable to generate snapshot");

    let m = upload_failed_message();
    assert_eq!(m.level, LogLevel::Error);
    assert_eq!(m.text, "Unable to upload snapshot");

    let m = captured_message("/dev/shm/camera_cam42.jpg", 12345);
    assert_eq!(m.level, LogLevel::Output);
    assert_eq!(m.text, "Captured file '/dev/shm/camera_cam42.jpg' (12345 bytes)");

    let m = uploaded_message();
    assert_eq!(m.level, LogLevel::Output);
    assert_eq!(
        m.text,
        "Successfully uploaded to 'https://webcam.connect.prusa3d.com/c/snapshot'"
    );

    let m = waiting_message(10);
    assert_eq!(m.level, LogLevel::Output);
    assert_eq!(m.text, "Waiting 10 seconds...");
}

#[test]
fn first_cycle_runs_immediately() {
    assert_eq!(initial_delay(), 0);
}

#[test]
fn successful_cycle_scenario() {
    let cfg = test_config(10, false);
    let ev = CycleEvent::Completed {
        capture_output: String::new(),
        snapshot_bytes: 12345,
        upload_output: String::new(),
    };
    let report = cycle_report(&cfg, ev);
    let texts: Vec<&str> = report.messages.iter().map(|m| m.text.as_str()).collect();
    assert_eq!(
        texts,
        vec![
            "Captured file '/dev/shm/camera_cam42.jpg' (12345 bytes)",
            "Successfully uploaded to 'https://webcam.connect.prusa3d.com/c/snapshot'",
            "Waiting 10 seconds...",
        ]
    );
    for m in &report.messages {
        assert_eq!(m.level, LogLevel::Output);
    }
    assert_eq!(report.next_delay, 10);
}

#[test]
fn capture_failure_scenario() {
    let cfg = test_config(10, false);
    let report = cycle_report(&cfg, CycleEvent::CaptureFailed);
    assert_eq!(report.messages.len(), 1);
    assert_eq!(report.messages[0].level, LogLevel::Error);
    assert_eq!(report.messages[0].text, "Unable to generate snapshot");
    assert_eq!(report.next_delay, 30);
}

#[test]
fn upload_failure_scenario() {
    let cfg = test_config(10, false);
    let ev = CycleEvent::UploadFailed {
        capture_output: String::new(),
        snapshot_bytes: 777,
    };
    let report = cycle_report(&cfg, ev);
    assert_eq!(report.messages.len(), 2);
    assert_eq!(report.messages[0].level, LogLevel::Output);
    assert_eq!(report.messages[0].text, "Captured file '/dev/shm/camera_cam42.jpg' (777 bytes)");
    assert_eq!(report.messages[1].level, LogLevel::Error);
    assert_eq!(report.messages[1].text, "Unable to upload snapshot");
    assert_eq!(report.next_delay, 30);
}

#[test]
fn debug_mode_echoes_collaborator_output() {
    let cfg = test_config(5, true);
    let ev = CycleEvent::Completed {
        capture_output: String::from("capture says hi"),
        snapshot_bytes: 9,
        upload_output: String::from("upload says hi"),
    };
    let report = cycle_report(&cfg, ev);
    let texts: Vec<&str> = report.messages.iter().map(|m| m.text.as_str()).collect();
    assert_eq!(
        texts,
        vec![
            "capture says hi",
            "Captured file '/dev/shm/camera_cam42.jpg' (9 bytes)",
            "upload says hi",
            "Successfully uploaded to 'https://webcam.connect.prusa3d.com/c/snapshot'",
            "Waiting 5 seconds...",
        ]
    );
    assert_eq!(report.next_delay, 5);
}

#[test]
fn smallest_interval_backoff() {
    let cfg = test_config(1, false);
    let report = cycle_report(&cfg, CycleEvent::CaptureFailed);
    assert_eq!(report.next_delay, 3);
}

#[test]
fn run_cycle_logs_in_order_and_returns_delay() {
    let logger = CollectingLogger::new();
    let tool = PrusaConnectUploaderTool::new(&logger);
    let cfg = test_config(10, false);
    let ev = CycleEvent::Completed {
        capture_output: String::new(),
        snapshot_bytes: 12345,
        upload_output: String::new(),
    };
    let delay = tool.run_cycle(&cfg, ev);
    assert_eq!(delay, 10);
    let lines = logger.taken();
    assert_eq!(lines.len(), 3);
    assert_eq!(lines[0].0, "output");
    assert_eq!(lines[0].1, "Captured file '/dev/shm/camera_cam42.jpg' (12345 bytes)");
    assert_eq!(lines[1].1, "Successfully uploaded to 'https://webcam.connect.prusa3d.com/c/snapshot'");
    assert_eq!(lines[2].1, "Waiting 10 seconds...");
}

#[test]
fn run_cycle_after_upload_failure() {
    let logger = CollectingLogger::new();
    let tool = PrusaConnectUploaderTool::new(&logger);
    let cfg = test_config(10, false);
    let ev = CycleEvent::UploadFailed {
        capture_output: String::new(),
        snapshot_bytes: 777,
    };
    let delay = tool.run_cycle(&cfg, ev);
    assert_eq!(delay, 30);
    let lines = logger.taken();
    assert_eq!(lines.len(), 2);
    assert_eq!(lines[0].0, "output");
    assert_eq!(lines[1].0, "error");
    assert_eq!(lines[1].1, "Unable to upload snapshot");
}

#[test]
fn startup_with_valid_parse_enters_loop() {
    let logger = CollectingLogger::new();
    let tool = PrusaConnectUploaderTool::new(&logger);
    let cfg = test_config(10, false);
    let got = tool.startup(Ok(cfg));
    assert!(got.is_some());
    assert_eq!(got.unwrap().interval, 10);
    assert!(logger.taken().is_empty());
}

#[test]
fn startup_with_help_prints_and_skips_loop() {
    let logger = CollectingLogger::new();
    let tool = PrusaConnectUploaderTool::new(&logger);
    let got = tool.startup(Err(String::from("Usage: prusa_connect_uploader [OPTIONS]")));
    assert!(got.is_none());
    let lines = logger.taken();
    assert_eq!(lines.len(), 1);
    assert_eq!(lines[0].0, "output");
    assert_eq!(lines[0].1, "Usage: prusa_connect_uploader [OPTIONS]");
}
