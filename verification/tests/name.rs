use riot_wrappers::thread::{Backend, KernelPID, StatusCodes};

fn codes() -> StatusCodes {
    StatusCodes {
        not_found: -1,
        stopped: 0,
        sleeping: 2,
        mutex_blocked: 3,
        receive_blocked: 4,
        send_blocked: 5,
        reply_blocked: 6,
        flag_blocked_any: 7,
        flag_blocked_all: 8,
        mbox_blocked: 9,
        running: 11,
        pending: 12,
    }
}

fn kernel() -> (Backend, KernelPID) {
    let backend = Backend::riot_c(1, 4, codes(), false);
    let pid = KernelPID::new(1, &backend).unwrap();
    (backend, pid)
}

#[test]
fn get_name_reads_the_reported_bytes() {
    let (backend, pid) = kernel();
    assert_eq!(pid.get_name(&backend, Some(b"main")), Some("main"));
    assert_eq!(pid.get_name(&backend, Some(b"idle")), Some("idle"));
}

#[test]
fn get_name_reads_names_beyond_ascii() {
    let (backend, pid) = kernel();
    let name = "z\u{e4}hler \u{2603}";
    assert_eq!(pid.get_name(&backend, Some(name.as_bytes())), Some(name));
}

#[test]
fn get_name_of_an_empty_name() {
    let (backend, pid) = kernel();
    assert_eq!(pid.get_name(&backend, Some(b"")), Some(""));
}

#[test]
fn get_name_without_a_reported_name() {
    let (backend, pid) = kernel();
    assert_eq!(pid.get_name(&backend, None), None);
}

#[test]
fn get_name_of_bytes_that_are_no_text() {
    let (backend, pid) = kernel();
    assert_eq!(pid.get_name(&backend, Some(&[0x6d, 0xff, 0x61])), None);
    assert_eq!(pid.get_name(&backend, Some(&[0xc3])), None);
    assert_eq!(pid.get_name(&backend, Some(&[0xc0, 0xaf])), None);
    assert_eq!(pid.get_name(&backend, Some(&[0xed, 0xa0, 0x80])), None);
    assert_eq!(pid.get_name(&backend, Some(&[0xf4, 0x90, 0x80, 0x80])), None);
}

#[test]
fn get_name_on_a_kernel_that_tells_no_names() {
    let backend = Backend::riot_rs(4, codes());
    let pid = KernelPID::new(1, &backend).unwrap();
    assert_eq!(pid.get_name(&backend, Some(b"main")), None);
    assert_eq!(pid.get_name(&backend, None), None);
}
