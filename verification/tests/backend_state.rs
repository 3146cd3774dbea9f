use hushreader::backend::{BackendSlot, BackendStatus};

#[test]
fn empty_slot_reports_not_ready() {
    let slot = BackendSlot::new();
    assert_eq!(slot.status(true), BackendStatus { running: false, port: 0 });
    assert_eq!(slot.port_for_request(true), Err("下载后台未就绪".to_string()));
}

#[test]
fn started_backend_reports_its_port() {
    let mut slot = BackendSlot::new();
    slot.install(7766);
    assert_eq!(slot.status(true), BackendStatus { running: true, port: 7766 });
    assert_eq!(slot.status(false), BackendStatus { running: false, port: 7766 });
    assert_eq!(slot.port_for_request(true), Ok(7766));
}

#[test]
fn ended_process_is_reported_as_stopped() {
    let mut slot = BackendSlot::new();
    slot.install(7765);
    assert_eq!(slot.port_for_request(false), Err("下载后台已停止".to_string()));
}

#[test]
fn only_one_download_at_a_time() {
    let mut slot = BackendSlot::new();
    slot.install(7765);
    assert_eq!(slot.begin_fetch(), Ok(()));
    assert_eq!(slot.begin_fetch(), Err("已有下载任务正在进行".to_string()));
    slot.end_fetch();
    assert_eq!(slot.begin_fetch(), Ok(()));
    assert_eq!(slot.port_for_request(true), Ok(7765));
}

#[test]
fn download_needs_a_backend() {
    let mut slot = BackendSlot::new();
    assert_eq!(slot.begin_fetch(), Err("下载后台未就绪".to_string()));
    slot.end_fetch();
    assert_eq!(slot.status(true), BackendStatus { running: false, port: 0 });
}

#[test]
fn shutting_down_empties_the_slot() {
    let mut slot = BackendSlot::new();
    assert!(!slot.shut_down());
    slot.install(7790);
    assert!(slot.begin_fetch().is_ok());
    assert!(slot.shut_down());
    assert_eq!(slot.port_for_request(true), Err("下载后台未就绪".to_string()));
    assert_eq!(slot.begin_fetch(), Err("下载后台未就绪".to_string()));
}

#[test]
fn restarting_clears_the_download_flag() {
    let mut slot = BackendSlot::new();
    slot.install(7765);
    assert!(slot.begin_fetch().is_ok());
    slot.install(7770);
    assert_eq!(slot.begin_fetch(), Ok(()));
    assert_eq!(slot.status(true).port, 7770);
}
