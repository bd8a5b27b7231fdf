use xwrust::cond::{Cond, CondError};
use xwrust::errno::{EINTR, ENODEV, ENOMEM, ENOTTHDCTX, ESRCH};
use xwrust::lock::{Lock, LockKind, WaitPoll};
use xwrust::thd::{spawn, Builder, JoinPoll, Kernel, ThdD, ThdElement, STATE_JOINABLE, STATE_JOINED};

#[test]
fn builder_spawns_with_its_options() {
    let mut k: Kernel<i32> = Kernel::new(4, 1, 2048);
    let h = Builder::new()
        .name(String::from("worker"))
        .stack_size(8192)
        .privileged(false)
        .spawn(&mut k)
        .unwrap();
    assert_eq!(h.element().name(), Some("worker"));
    assert_eq!(h.join_state(), STATE_JOINABLE);
    assert_eq!(*h.thdd(), ThdD { thd: 0, tik: 1 });
    assert!(k.is_running(*h.thdd()));
    assert!(!h.finished(&k));
}

#[test]
fn default_builder_has_no_name() {
    let mut k: Kernel<i32> = Kernel::new(4, 1, 2048);
    let h = spawn(&mut k).unwrap();
    assert_eq!(h.element().name(), None);
    assert_eq!(k.default_stack_size(), 2048);
}

#[test]
fn name_with_nul_becomes_invalid_name() {
    let mut k: Kernel<i32> = Kernel::new(4, 1, 2048);
    let h = Builder::new().name(String::from("a\0b")).spawn(&mut k).unwrap();
    assert_eq!(h.element().name(), Some("InvalidName"));
    let h = Builder::new().name(String::from("")).spawn(&mut k).unwrap();
    assert_eq!(h.element().name(), Some(""));
}

#[test]
fn spawn_fails_when_table_is_full() {
    let mut k: Kernel<i32> = Kernel::new(1, 1, 2048);
    let main = spawn(&mut k).unwrap();
    assert!(matches!(spawn(&mut k), Err(e) if e == -ENOMEM));
    k.run(*main.thdd(), |_e: &ThdElement| 0);
    assert_eq!(main.join_state(), STATE_JOINABLE);
}

#[test]
fn spawned_worker_returns_its_value() {
    let mut k: Kernel<i32> = Kernel::new(4, 1, 2048);
    let main = spawn(&mut k).unwrap();
    let h = Builder::new()
        .name(String::from("worker"))
        .stack_size(8192)
        .spawn(&mut k)
        .unwrap();
    let worker = *h.thdd();
    assert!(!h.finished(&k));
    assert_eq!(k.interrupt(*main.thdd()), 0);
    let h = match h.join(&mut k, *main.thdd()) {
        JoinPoll::Failed(h) => h,
        _ => panic!("the join was interrupted"),
    };
    assert_eq!(h.join_state(), -EINTR);
    assert!(!h.finished(&k));
    k.run(worker, |e: &ThdElement| {
        assert_eq!(e.name(), Some("worker"));
        42
    });
    assert!(h.finished(&k));
    match h.join(&mut k, *main.thdd()) {
        JoinPoll::Joined(v) => assert_eq!(v, 42),
        _ => panic!("the join should succeed"),
    }
    assert!(!k.is_valid(worker));
}

#[test]
fn join_of_finished_thread_ignores_pending_interrupt() {
    let mut k: Kernel<i32> = Kernel::new(4, 1, 2048);
    let main = spawn(&mut k).unwrap();
    let h = spawn(&mut k).unwrap();
    k.run(*h.thdd(), |_e: &ThdElement| 7);
    assert_eq!(k.interrupt(*main.thdd()), 0);
    assert!(matches!(h.join(&mut k, *main.thdd()), JoinPoll::Joined(7)));
}

#[test]
fn join_from_outside_a_thread_fails() {
    let mut k: Kernel<i32> = Kernel::new(4, 1, 2048);
    let h = spawn(&mut k).unwrap();
    let h = match h.join(&mut k, ThdD { thd: 3, tik: 9 }) {
        JoinPoll::Failed(h) => h,
        _ => panic!("no joiner"),
    };
    assert_eq!(h.join_state(), -ENOTTHDCTX);
}

#[test]
fn stop_quits_then_joins() {
    let mut k: Kernel<i32> = Kernel::new(4, 1, 2048);
    let main = spawn(&mut k).unwrap();
    let h = spawn(&mut k).unwrap();
    let t = *h.thdd();
    k.run(t, |_e: &ThdElement| 5);
    assert!(matches!(h.stop(&mut k, *main.thdd()), JoinPoll::Joined(5)));
}

#[test]
fn quit_interrupts_an_interruptible_wait() {
    let mut k: Kernel<i32> = Kernel::new(4, 1, 2048);
    let h = spawn(&mut k).unwrap();
    let t = *h.thdd();
    let mut c = Cond::new();
    c.init();
    let mut l = Lock::new(1, LockKind::Mutex);
    let w = l.lock(t).unwrap().wait(&mut c, &mut l).unwrap();
    assert!(!k.exit_requested(t));
    assert_eq!(h.quit(&mut k), 0);
    assert!(k.exit_requested(t));
    assert!(matches!(w.resume(&mut c, &mut l, &mut k, 0), WaitPoll::Failed(CondError::Interrupt)));
    assert_eq!(l.holder(), None);
}

#[test]
fn quit_leaves_an_uninterruptible_wait_blocked() {
    let mut k: Kernel<i32> = Kernel::new(4, 1, 2048);
    let h = spawn(&mut k).unwrap();
    let t = *h.thdd();
    let mut c = Cond::new();
    c.init();
    let mut l = Lock::new(1, LockKind::Mutex);
    let w = l.lock(t).unwrap().wait_unintr(&mut c, &mut l).unwrap();
    assert_eq!(h.quit(&mut k), 0);
    assert_eq!(h.quit(&mut k), 0);
    let w = match w.resume(&mut c, &mut l, &mut k, 0) {
        WaitPoll::Blocked(w) => w,
        _ => panic!("still blocked"),
    };
    assert_eq!(c.unicast(), Ok(()));
    assert!(matches!(w.resume(&mut c, &mut l, &mut k, 0), WaitPoll::Woken(_)));
    assert!(k.exit_requested(t));
}

#[test]
fn detached_thread_runs_to_completion_alone() {
    let mut k: Kernel<i32> = Kernel::new(4, 1, 2048);
    let h = spawn(&mut k).unwrap();
    let t = *h.thdd();
    assert_eq!(h.detach(&mut k), 0);
    assert!(k.is_running(t));
    k.run(t, |_e: &ThdElement| 1);
    assert!(!k.is_valid(t));
    assert_eq!(t.quit(&mut k), -ESRCH);
    let h2 = spawn(&mut k).unwrap();
    assert_eq!(h2.thdd().thd, t.thd);
    assert_ne!(h2.thdd().tik, t.tik);
}

#[test]
fn detach_after_exit_reclaims_at_once() {
    let mut k: Kernel<i32> = Kernel::new(4, 1, 2048);
    let h = spawn(&mut k).unwrap();
    let t = *h.thdd();
    k.run(t, |_e: &ThdElement| 3);
    assert!(k.is_valid(t));
    assert_eq!(h.detach(&mut k), 0);
    assert!(!k.is_valid(t));
}

#[test]
fn stale_descriptor_is_refused() {
    let mut k: Kernel<i32> = Kernel::new(4, 1, 2048);
    let main = spawn(&mut k).unwrap();
    let h = spawn(&mut k).unwrap();
    let t = *h.thdd();
    k.run(t, |_e: &ThdElement| 3);
    assert!(matches!(h.join(&mut k, *main.thdd()), JoinPoll::Joined(3)));
    assert_eq!(k.interrupt(t), -ESRCH);
    assert_eq!(t.migrate(&mut k, 0), -ESRCH);
    assert!(!k.exit_requested(t));
}

#[test]
fn migrate_checks_the_processor() {
    let mut k: Kernel<i32> = Kernel::new(4, 2, 2048);
    let h = spawn(&mut k).unwrap();
    let t = *h.thdd();
    assert_eq!(t.migrate(&mut k, 1), 0);
    assert_eq!(t.migrate(&mut k, 2), -ENODEV);
}

#[test]
fn join_blocks_until_the_thread_returns() {
    let mut k: Kernel<i32> = Kernel::new(4, 1, 2048);
    let main = spawn(&mut k).unwrap();
    let h = spawn(&mut k).unwrap();
    let t = *h.thdd();
    let jn = match h.join(&mut k, *main.thdd()) {
        JoinPoll::Blocked(jn) => jn,
        _ => panic!("the thread still runs"),
    };
    assert_eq!(jn.joiner(), *main.thdd());
    assert_eq!(*jn.handle().thdd(), t);
    let jn = match jn.resume(&mut k) {
        JoinPoll::Blocked(jn) => jn,
        _ => panic!("the thread still runs"),
    };
    k.run(t, |_e: &ThdElement| 9);
    assert!(matches!(jn.resume(&mut k), JoinPoll::Joined(9)));
    assert!(!k.is_valid(t));
}

#[test]
fn blocked_join_is_interrupted() {
    let mut k: Kernel<i32> = Kernel::new(4, 1, 2048);
    let main = spawn(&mut k).unwrap();
    let h = spawn(&mut k).unwrap();
    let jn = match h.join(&mut k, *main.thdd()) {
        JoinPoll::Blocked(jn) => jn,
        _ => panic!("the thread still runs"),
    };
    assert_eq!(k.interrupt(*main.thdd()), 0);
    let h = match jn.resume(&mut k) {
        JoinPoll::Failed(h) => h,
        _ => panic!("the join was interrupted"),
    };
    assert_eq!(h.join_state(), -EINTR);
    assert_ne!(h.join_state(), STATE_JOINED);
    assert!(!k.is_intr_pending(*main.thdd()));
}

#[test]
fn stop_of_a_running_thread_quits_and_waits() {
    let mut k: Kernel<i32> = Kernel::new(4, 1, 2048);
    let main = spawn(&mut k).unwrap();
    let h = Builder::new().name(String::from("worker")).spawn(&mut k).unwrap();
    let t = *h.thdd();
    let mut c = Cond::new();
    c.init();
    let mut l = Lock::new(1, LockKind::Mutex);
    let w = l.lock(t).unwrap().wait(&mut c, &mut l).unwrap();
    let jn = match h.stop(&mut k, *main.thdd()) {
        JoinPoll::Blocked(jn) => jn,
        _ => panic!("the thread still runs"),
    };
    assert!(k.exit_requested(t));
    assert!(matches!(w.resume(&mut c, &mut l, &mut k, 0), WaitPoll::Failed(CondError::Interrupt)));
    k.run(t, |_e: &ThdElement| 11);
    assert!(matches!(jn.resume(&mut k), JoinPoll::Joined(11)));
}
