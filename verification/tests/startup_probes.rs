use hushreader::probe::{
    child_exit_error, ready_step, ChildState, DownloadProgress, PortScan, ProgressReader,
    ReadyStep, ScanStep, BASE_PORT, MAX_PORT_TRY,
};

#[test]
fn port_scan_tries_ports_upward() {
    let mut scan = PortScan::new();
    for k in 0..MAX_PORT_TRY {
        match scan.step() {
            ScanStep::Try(p) => assert_eq!(p, BASE_PORT + k),
            ScanStep::GiveUp(_) => panic!("gave up too early"),
        }
        scan.port_taken();
    }
    match scan.step() {
        ScanStep::GiveUp(m) => assert_eq!(m, "找不到可用的下载后台端口"),
        ScanStep::Try(p) => panic!("tried {} past the range", p),
    }
}

#[test]
fn port_scan_starts_at_7765() {
    match PortScan::new().step() {
        ScanStep::Try(p) => assert_eq!(p, 7765),
        ScanStep::GiveUp(_) => panic!("no port"),
    }
}

#[test]
fn child_states() {
    assert_eq!(child_exit_error(&ChildState::Running), None);
    assert_eq!(
        child_exit_error(&ChildState::Exited { code: Some(1) }).as_deref(),
        Some("下载后台启动失败（进程已退出，退出码 1）")
    );
    assert_eq!(
        child_exit_error(&ChildState::Exited { code: None }).as_deref(),
        Some("下载后台启动失败（进程已退出，退出码 -1）")
    );
    assert_eq!(
        child_exit_error(&ChildState::Exited { code: Some(-1073741515) }).as_deref(),
        Some("下载后台启动失败（进程已退出，退出码 -1073741515）")
    );
    assert_eq!(
        child_exit_error(&ChildState::Unknown { error: "io".to_string() }).as_deref(),
        Some("io")
    );
}

#[test]
fn readiness_decisions() {
    assert!(matches!(ready_step(Some(200), false), ReadyStep::Ready));
    assert!(matches!(ready_step(Some(200), true), ReadyStep::Ready));
    assert!(matches!(ready_step(Some(204), false), ReadyStep::Retry));
    assert!(matches!(ready_step(None, false), ReadyStep::Retry));
    match ready_step(None, true) {
        ReadyStep::TimedOut(m) => assert_eq!(m, "下载后台启动超时"),
        _ => panic!("expected a time-out"),
    }
}

#[test]
fn progress_reader_skips_headers() {
    let mut reader = ProgressReader::new();
    let event = r#"data:{"type":"download-progress","total":10,"index":3}"#;
    assert_eq!(reader.feed_line("HTTP/1.1 200 OK"), None);
    assert_eq!(reader.feed_line(event), None);
    assert_eq!(reader.feed_line(""), None);
    assert_eq!(reader.feed_line(event), Some(DownloadProgress { total: 10, index: 3 }));
}

#[test]
fn progress_reader_filters_events() {
    let mut reader = ProgressReader::new();
    reader.feed_line("");
    assert_eq!(
        reader.feed_line("data:  {\"type\":\"download-progress\"}\r"),
        Some(DownloadProgress { total: 0, index: 0 })
    );
    assert_eq!(reader.feed_line(r#"data:{"type":"download-finished","total":1}"#), None);
    assert_eq!(reader.feed_line("event: progress"), None);
    assert_eq!(reader.feed_line("data: not json"), None);
    assert_eq!(reader.feed_line(""), None);
    assert_eq!(
        reader.feed_line(r#"data: {"type":"download-progress","total":-1,"index":2.5}"#),
        Some(DownloadProgress { total: 0, index: 0 })
    );
}

#[test]
fn process_liveness() {
    assert!(!hushreader::probe::process_alive(None));
    assert!(hushreader::probe::process_alive(Some(&ChildState::Running)));
    assert!(!hushreader::probe::process_alive(Some(&ChildState::Exited { code: Some(0) })));
    assert!(hushreader::probe::process_alive(Some(&ChildState::Unknown { error: "io".to_string() })));
}
