use userspace::handle::{AnyObject, Endpoint, MoveHandle, OwnedHandle};
use userspace::ipc::{Error, Rights};
use userspace::kernel::{Answer, Kernel, Op};

fn answer(result: u64) -> Answer {
    Answer { result, words: [0; 4], bytes: Vec::new(), attached: Vec::new() }
}

fn failure(error: Error) -> Answer {
    answer((-i64::from(error.code())) as u64)
}

/// The handles that a procedure has closed.
fn closed(kernel: &Kernel) -> Vec<u64> {
    let mut handles = Vec::new();
    for call in kernel.calls() {
        if let Op::Close { handle } = call.op {
            handles.push(handle);
        }
    }
    handles
}

#[test]
fn owned_handles_close_once_and_transfers_preserve_ownership() {
    let mut kernel = Kernel::new(vec![answer(0)]);
    let owned = OwnedHandle::<AnyObject>::from_raw(41).unwrap();
    assert_eq!(owned.as_raw(), 41);
    assert_eq!(owned.borrow().as_raw(), 41);
    assert_eq!(owned.discard(&mut kernel), Some(()));
    assert_eq!(closed(&kernel), vec![41]);

    let owned = OwnedHandle::<AnyObject>::from_raw(42).unwrap();
    assert_eq!(owned.into_raw(), 42);
    assert_eq!(closed(&kernel), vec![41]);

    let mut kernel = Kernel::new(vec![answer(0)]);
    let owned = OwnedHandle::<AnyObject>::from_raw(43).unwrap();
    assert!(owned.close(&mut kernel).unwrap().is_ok());
    assert_eq!(closed(&kernel), vec![43]);

    let mut kernel = Kernel::new(vec![failure(Error::try_again()), answer(0)]);
    let endpoint = OwnedHandle::<Endpoint>::from_raw(7).unwrap();
    let owned = OwnedHandle::<AnyObject>::from_raw(44).unwrap();
    let failed = endpoint
        .send_move(&mut kernel, b"retry", owned, Rights::wait())
        .unwrap()
        .unwrap_err();
    assert_eq!(
        kernel.calls()[0].op,
        Op::SendMove { endpoint: 7, handle: 44, rights: Rights::wait().bits() }
    );
    assert_eq!(kernel.calls()[0].bytes, b"retry".to_vec());
    assert_eq!(failed.error(), Error::try_again());
    let (error, owned) = failed.into_parts();
    assert_eq!(error, Error::try_again());
    assert_eq!(owned.as_raw(), 44);
    assert_eq!(owned.discard(&mut kernel), Some(()));
    assert_eq!(closed(&kernel), vec![44]);

    let mut kernel = Kernel::new(vec![answer(0)]);
    let owned = OwnedHandle::<AnyObject>::from_raw(45).unwrap();
    assert!(endpoint
        .send_move(&mut kernel, b"sent", owned, Rights::wait())
        .unwrap()
        .is_ok());
    assert_eq!(closed(&kernel), Vec::<u64>::new());
}

#[test]
fn zero_cannot_be_adopted() {
    assert_eq!(
        OwnedHandle::<AnyObject>::from_raw(0).unwrap_err(),
        Error::invalid_argument()
    );
}

#[test]
fn multi_handle_move_is_all_or_nothing_for_ownership() {
    let mut kernel = Kernel::new(vec![failure(Error::try_again()), answer(0), answer(0)]);
    let endpoint = OwnedHandle::<Endpoint>::from_raw(9).unwrap();
    let first = OwnedHandle::<AnyObject>::from_raw(51).unwrap();
    let second = OwnedHandle::<AnyObject>::from_raw(52).unwrap();
    let failed = endpoint
        .send_move_many(
            &mut kernel,
            b"retry-many",
            [
                MoveHandle::new(first, Rights::wait()),
                MoveHandle::new(second, Rights::read()),
            ],
        )
        .unwrap()
        .unwrap_err();
    assert_eq!(kernel.calls()[0].op, Op::SendMoveMany { endpoint: 9, count: 2 });
    assert_eq!(kernel.calls()[0].bytes, b"retry-many".to_vec());
    assert_eq!(
        kernel.calls()[0].attached,
        vec![(51, Rights::wait().bits()), (52, Rights::read().bits())]
    );
    assert_eq!(failed.error(), Error::try_again());
    let handles = failed.into_handles();
    assert_eq!(handles[0].handle().as_raw(), 51);
    assert_eq!(handles[1].handle().as_raw(), 52);
    for moved in handles {
        assert_eq!(moved.into_handle().discard(&mut kernel), Some(()));
    }
    assert_eq!(closed(&kernel), vec![51, 52]);

    let mut kernel = Kernel::new(vec![answer(0)]);
    let first = OwnedHandle::<AnyObject>::from_raw(53).unwrap();
    let second = OwnedHandle::<AnyObject>::from_raw(54).unwrap();
    assert!(endpoint
        .send_move_many(
            &mut kernel,
            b"sent-many",
            [
                MoveHandle::new(first, Rights::wait()),
                MoveHandle::new(second, Rights::read()),
            ],
        )
        .unwrap()
        .is_ok());
    assert_eq!(kernel.calls()[0].attached.len(), 2);
    assert_eq!(closed(&kernel), Vec::<u64>::new());
}
