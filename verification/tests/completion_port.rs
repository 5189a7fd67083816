use folo::io::completion_port::COMPLETION_KEY;
use folo::io::completion_port::FILE_SKIP_SET_EVENT_ON_HANDLE;
use folo::io::completion_port::PORT_CONCURRENCY;
use folo::io::BindOutcome;
use folo::io::BindRequest;
use folo::io::CompletionPort;
use folo::io::Error;
use folo::io::OwnedHandle;

#[test]
fn giving_up_a_handle_hands_out_its_raw_value() {
    let port = CompletionPort::new(500);
    let mut handle = OwnedHandle::new(42);
    assert!(port.bind(&mut handle, BindOutcome::Completed).is_ok());
    assert_eq!(handle.into_raw(), 42);
    assert_eq!(OwnedHandle::new(7).into_raw(), 7);
}

#[test]
fn a_port_keeps_its_handle() {
    assert_eq!(CompletionPort::new(0x1234).handle(), 0x1234);
}

#[test]
fn the_request_names_both_platform_calls() {
    let port = CompletionPort::new(500);
    let handle = OwnedHandle::new(42);
    let request = port.bind_request(&handle).ok().unwrap();
    assert_eq!(
        request,
        BindRequest {
            handle: 42,
            port: 500,
            completion_key: 0,
            concurrency: 1,
            notification_modes: 2,
        }
    );
    assert_eq!(COMPLETION_KEY, 0);
    assert_eq!(PORT_CONCURRENCY, 1);
    assert_eq!(FILE_SKIP_SET_EVENT_ON_HANDLE, 2);
}

#[test]
fn a_completed_binding_binds_the_handle() {
    let port = CompletionPort::new(500);
    let mut handle = OwnedHandle::new(42);
    assert!(!handle.is_bound());
    assert_eq!(handle.port(), None);
    assert!(port.bind(&mut handle, BindOutcome::Completed).is_ok());
    assert!(handle.is_bound());
    assert_eq!(handle.port(), Some(500));
    assert_eq!(handle.raw(), 42);
}

#[test]
fn a_failed_association_leaves_the_handle_unbound() {
    let port = CompletionPort::new(500);
    let mut handle = OwnedHandle::new(42);
    let result = port.bind(&mut handle, BindOutcome::AssociationFailed(Error::Windows { code: 6 }));
    assert!(matches!(result, Err(Error::Windows { code: 6 })));
    assert!(!handle.is_bound());
    // Nothing was bound, so the handle can still be offered to a port.
    assert!(port.bind(&mut handle, BindOutcome::Completed).is_ok());
    assert_eq!(handle.port(), Some(500));
}

#[test]
fn a_failed_mode_change_reports_the_error_of_a_bound_handle() {
    let port = CompletionPort::new(500);
    let mut handle = OwnedHandle::new(42);
    let result = port.bind(&mut handle, BindOutcome::ModeFailed(Error::Windows { code: 87 }));
    assert!(matches!(result, Err(Error::Windows { code: 87 })));
    assert_eq!(handle.port(), Some(500));
}

#[test]
fn a_handle_is_bound_to_one_port_for_good() {
    let first = CompletionPort::new(500);
    let second = CompletionPort::new(600);
    let mut handle = OwnedHandle::new(42);
    assert!(first.bind(&mut handle, BindOutcome::Completed).is_ok());
    match second.bind(&mut handle, BindOutcome::Completed) {
        Err(Error::Internal(message)) => {
            assert_eq!(message, "handle is already bound to a completion port")
        }
        _ => panic!("a second binding must be refused"),
    }
    assert_eq!(handle.port(), Some(500));
    match first.bind(&mut handle, BindOutcome::Completed) {
        Err(Error::Internal(_)) => {}
        _ => panic!("a second binding to the same port must be refused too"),
    }
    assert_eq!(handle.port(), Some(500));
    match second.bind_request(&handle) {
        Err(Error::Internal(message)) => {
            assert_eq!(message, "handle is already bound to a completion port")
        }
        _ => panic!("no request may be made for a bound handle"),
    }
}
