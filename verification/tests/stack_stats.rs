use riot_wrappers::thread::{
    Backend, KernelPID, NoSuchThread, StackStats, StackStatsError, StatusCodes, ThreadBlock,
};

fn codes() -> StatusCodes {
    StatusCodes {
        not_found: -1,
        stopped: 0,
        sleeping: 2,
        mutex_blocked: 3,
        receive_blocked: 4,
        send_blocked: 5,
        reply_blocked: 6,
        flag_blocked_any: 7,
        flag_blocked_all: 8,
        mbox_blocked: 9,
        running: 11,
        pending: 12,
    }
}

fn block() -> ThreadBlock {
    ThreadBlock { priority: 7, stack_start: 0x2000_0400, stack_size: 1024, stack_free: 600 }
}

#[test]
fn stack_stats_of_a_thread_in_a_development_build() {
    let backend = Backend::riot_c(1, 4, codes(), true);
    let pid = KernelPID::new(1, &backend).unwrap();
    assert_eq!(
        pid.stack_stats(&backend, Some(&block())),
        Ok(StackStats { start: 0x2000_0400, size: 1024, free: 600 })
    );
}

#[test]
fn stack_stats_are_unavailable_without_a_development_build() {
    let backend = Backend::riot_c(1, 4, codes(), false);
    for pid in KernelPID::all_pids(&backend) {
        assert_eq!(
            pid.stack_stats(&backend, Some(&block())),
            Err(StackStatsError::InformationUnavailable)
        );
    }
}

#[test]
fn stack_stats_are_unavailable_on_the_rust_kernel() {
    let backend = Backend::riot_rs(8, codes());
    for pid in KernelPID::all_pids(&backend) {
        assert_eq!(
            pid.stack_stats(&backend, Some(&block())),
            Err(StackStatsError::InformationUnavailable)
        );
    }
}

#[test]
fn stack_stats_of_a_missing_thread() {
    let backend = Backend::riot_c(1, 4, codes(), true);
    let pid = KernelPID::new(1, &backend).unwrap();
    assert_eq!(pid.stack_stats(&backend, None), Err(StackStatsError::NoSuchThread));
}

#[test]
fn a_missing_thread_comes_before_missing_information() {
    let backend = Backend::riot_c(1, 4, codes(), false);
    let pid = KernelPID::new(1, &backend).unwrap();
    assert_eq!(pid.stack_stats(&backend, None), Err(StackStatsError::NoSuchThread));
    let rust_kernel = Backend::riot_rs(4, codes());
    assert_eq!(pid.stack_stats(&rust_kernel, None), Err(StackStatsError::NoSuchThread));
}

#[test]
fn stack_stats_may_report_more_free_than_the_stack_holds() {
    let backend = Backend::riot_c(1, 4, codes(), true);
    let pid = KernelPID::new(1, &backend).unwrap();
    let block = ThreadBlock { priority: 0, stack_start: 16, stack_size: 8, stack_free: 12 };
    assert_eq!(
        pid.stack_stats(&backend, Some(&block)),
        Ok(StackStats { start: 16, size: 8, free: 12 })
    );
}

#[test]
fn priority_of_a_thread() {
    let backend = Backend::riot_c(1, 4, codes(), false);
    let pid = KernelPID::new(1, &backend).unwrap();
    assert_eq!(pid.priority(Some(&block())), Ok(7));
    let idle = ThreadBlock { priority: 15, stack_start: 0, stack_size: 0, stack_free: 0 };
    assert_eq!(pid.priority(Some(&idle)), Ok(15));
}

#[test]
fn priority_of_a_missing_thread() {
    let backend = Backend::riot_c(1, 4, codes(), false);
    let pid = KernelPID::new(1, &backend).unwrap();
    assert_eq!(pid.priority(None), Err(NoSuchThread));
}

#[test]
fn a_missing_thread_is_a_stack_stats_error() {
    assert_eq!(StackStatsError::from(NoSuchThread), StackStatsError::NoSuchThread);
    let converted: StackStatsError = NoSuchThread.into();
    assert_eq!(converted, StackStatsError::NoSuchThread);
}
