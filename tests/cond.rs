use xwrust::cond::{Cond, CondError};

fn ready() -> Cond {
    let mut c = Cond::new();
    c.init();
    c
}

#[test]
fn new_cond_is_not_initialised() {
    let mut c = Cond::new();
    assert!(!c.is_init());
    assert_eq!(c.freeze(), Err(CondError::NotInit));
    assert_eq!(c.thaw(), Err(CondError::NotInit));
    assert_eq!(c.unicast(), Err(CondError::NotInit));
    assert_eq!(c.broadcast(), Err(CondError::NotInit));
    assert_eq!(c.fini(), Err(CondError::NotInit));
}

#[test]
fn init_constructs_once() {
    let mut c = Cond::new();
    c.init();
    assert!(c.is_init());
    let t = c.ticket();
    assert_eq!(t, 1);
    c.init();
    c.init();
    assert_eq!(c.ticket(), t);
    assert!(c.is_init());
}

#[test]
fn init_after_fini_takes_a_new_ticket() {
    let mut c = ready();
    let t = c.ticket();
    assert_eq!(c.fini(), Ok(()));
    assert!(!c.is_init());
    assert_eq!(c.unicast(), Err(CondError::NotInit));
    c.init();
    assert!(c.is_init());
    assert_eq!(c.ticket(), t + 1);
}

#[test]
fn init_keeps_frozen_state() {
    let mut c = ready();
    assert_eq!(c.freeze(), Ok(()));
    c.init();
    assert!(c.is_frozen());
}

#[test]
fn freeze_blocks_signals() {
    let mut c = ready();
    assert_eq!(c.freeze(), Ok(()));
    assert_eq!(c.unicast(), Err(CondError::AlreadyFrozen));
    assert_eq!(c.broadcast(), Err(CondError::AlreadyFrozen));
}

#[test]
fn thaw_after_freeze_restores_signals() {
    let mut c = ready();
    assert_eq!(c.freeze(), Ok(()));
    assert_eq!(c.thaw(), Ok(()));
    assert!(!c.is_frozen());
    assert_eq!(c.unicast(), Ok(()));
    assert_eq!(c.broadcast(), Ok(()));
}

#[test]
fn freeze_twice_reports_already_frozen() {
    let mut c = ready();
    assert_eq!(c.freeze(), Ok(()));
    assert_eq!(c.freeze(), Err(CondError::AlreadyFrozen));
    assert!(c.is_frozen());
}

#[test]
fn thaw_without_freeze_reports_already_thawed() {
    let mut c = ready();
    assert_eq!(c.thaw(), Err(CondError::AlreadyThawed));
}

#[test]
fn signals_on_empty_queue_succeed() {
    let mut c = ready();
    assert_eq!(c.unicast(), Ok(()));
    assert_eq!(c.broadcast(), Ok(()));
    assert!(c.waiters().is_empty());
}
