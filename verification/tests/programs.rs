use btf_core::errors::{LinkError, ProgramError};
use btf_core::programs::{RawTracePoint, TracePoint, TracePointLink};

#[test]
fn test_trace_point_lifecycle() {
    let mut prog = TracePoint::new();
    assert_eq!(prog.data.prog_fd(), None);
    // Nothing can be attached before the program is loaded.
    assert_eq!(prog.attach(7), Err(LinkError::NotLoaded));
    assert_eq!(prog.load(3), Ok(()));
    assert_eq!(prog.data.prog_fd(), Some(3));
    assert_eq!(prog.load(4), Err(ProgramError::AlreadyLoaded));
    assert_eq!(prog.data.prog_fd(), Some(3));

    let first = prog.attach(10).unwrap();
    let second = prog.attach(11).unwrap();
    assert_ne!(first, second);

    assert_eq!(prog.detach(first), Ok(()));
    // A detached id is dead: detaching it again fails.
    assert_eq!(prog.detach(first), Err(LinkError::InvalidLink));
    // The other attachment is untouched.
    assert_eq!(prog.take_link(second), Ok(TracePointLink { fd: 11 }));
    assert_eq!(prog.take_link(second), Err(LinkError::InvalidLink));
}

#[test]
fn test_trace_point_link_ids_not_reused() {
    let mut prog = TracePoint::new();
    prog.load(3).unwrap();
    let first = prog.attach(10).unwrap();
    prog.detach(first).unwrap();
    let third = prog.attach(12).unwrap();
    // The registry keeps a hole where the detached link sat, so the new
    // attachment gets a fresh id and the stale one stays dead.
    assert_ne!(first, third);
    assert_eq!(prog.detach(first), Err(LinkError::InvalidLink));
    assert_eq!(prog.take_link(third), Ok(TracePointLink { fd: 12 }));
}

#[test]
fn test_raw_trace_point_load() {
    let mut prog = RawTracePoint::new();
    assert_eq!(prog.load(5), Ok(()));
    assert_eq!(prog.data.prog_fd(), Some(5));
    assert_eq!(prog.load(6), Err(ProgramError::AlreadyLoaded));
}
