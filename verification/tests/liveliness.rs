use hybrid_exec::liveliness_manager::Liveliness;
use hybrid_exec::liveliness_manager::LivelinessError;
use hybrid_exec::liveliness_manager::LivelinessGuard;

#[test]
fn a_fresh_manager_is_alive() {
    let (manager, _guard) = LivelinessGuard::create();
    assert!(manager.is_alive());
    assert_eq!(manager.state(), Liveliness::Alive);
    assert!(!manager.torn_down());
}

#[test]
fn cancel_then_restore() {
    let (mut manager, guard) = LivelinessGuard::create();
    let cancelled = guard.cancel(&mut manager);
    assert!(!manager.is_alive());
    assert_eq!(manager.state(), Liveliness::Cancelled);
    let guard = cancelled.restore(&mut manager).expect("nothing tore the manager down");
    assert!(manager.is_alive());
    assert_eq!(manager.state(), Liveliness::Alive);
    guard.forget(&mut manager);
    assert!(manager.is_alive());
    assert_eq!(manager.state(), Liveliness::Forgotten);
}

#[test]
fn restore_fails_once_torn_down() {
    let (mut manager, guard) = LivelinessGuard::create();
    let cancelled = guard.cancel(&mut manager);
    manager.tear_down();
    assert!(manager.torn_down());
    let before = manager;
    match cancelled.restore(&mut manager) {
        Err(e) => {
            assert_eq!(e, LivelinessError::TornDown);
            assert_eq!(e.message(), "Unable to restore CancelledLivelinessGuard!");
        }
        Ok(_) => panic!("restored a manager that was torn down"),
    }
    assert_eq!(manager, before);
    assert!(!manager.is_alive());
}

#[test]
fn forget_never_signals() {
    let (mut manager, guard) = LivelinessGuard::create();
    guard.forget(&mut manager);
    assert!(manager.is_alive());

    let (mut manager, guard) = LivelinessGuard::create();
    let cancelled = guard.cancel(&mut manager);
    let before = manager;
    cancelled.forget(&mut manager);
    assert_eq!(manager, before);
    assert!(!manager.is_alive());
}

#[test]
fn and_is_alive_while_both_are() {
    let (mut outer, outer_guard) = LivelinessGuard::create();
    let (mut inner, inner_guard) = LivelinessGuard::create();
    assert!(outer.and(&inner).is_alive());

    let cancelled = inner_guard.cancel(&mut inner);
    assert!(!outer.and(&inner).is_alive());
    assert!(!inner.and(&outer).is_alive());

    let inner_guard = cancelled.restore(&mut inner).unwrap();
    assert!(outer.and(&inner).is_alive());

    let _ = outer_guard.cancel(&mut outer);
    assert!(!outer.and(&inner).is_alive());
    let _ = inner_guard.cancel(&mut inner);
    assert!(!outer.and(&inner).is_alive());
}

#[test]
fn and_remembers_a_tear_down() {
    let (mut outer, _g1) = LivelinessGuard::create();
    let (inner, _g2) = LivelinessGuard::create();
    assert!(!outer.and(&inner).torn_down());
    outer.tear_down();
    assert!(outer.and(&inner).torn_down());
    assert!(inner.and(&outer).torn_down());
    assert!(outer.and(&inner).is_alive());
}
