use f3::dma::{
    Action, Buffer, Dma1Channel2, Dma1Channel4, Dma1Channel5, Error, Flags, State, UNUSED, WRITING,
};

const PENDING: Flags = Flags { complete: false, error: false };
const COMPLETE: Flags = Flags { complete: true, error: false };
const FAILED: Flags = Flags { complete: false, error: true };
const FAILED_COMPLETE: Flags = Flags { complete: true, error: true };

#[test]
fn new_buffer_is_unused_and_unlocked() {
    let buffer: Buffer<[u8; 4], Dma1Channel2> = Buffer::new([1, 2, 3, 4]);
    assert_eq!(buffer.counter(), UNUSED);
    assert_eq!(buffer.counter(), 0);
    assert_eq!(buffer.state(), State::Unlocked);
    assert!(buffer.can_borrow());
    assert!(buffer.can_borrow_mut());
    assert!(buffer.can_lock());
    assert!(buffer.can_lock_mut());
}

#[test]
fn sentinel_is_the_largest_counter() {
    assert_eq!(UNUSED, 0);
    assert_eq!(WRITING, usize::MAX);
}

#[test]
fn shared_borrows_count_up_and_down() {
    let mut buffer: Buffer<u32, Dma1Channel4> = Buffer::new(11);
    let mut guards = Vec::new();
    for n in 1..=5usize {
        assert!(buffer.can_borrow());
        guards.push(buffer.borrow());
        assert_eq!(buffer.counter(), n);
    }
    for guard in &guards {
        assert_eq!(*guard.deref(&buffer), 11);
    }
    let mut left = 5usize;
    for guard in guards {
        guard.drop(&mut buffer);
        left -= 1;
        assert_eq!(buffer.counter(), left);
    }
    assert_eq!(buffer.counter(), UNUSED);
    assert_eq!(buffer.state(), State::Unlocked);
    assert!(buffer.can_borrow_mut());
}

#[test]
fn two_shared_borrows_rule_out_an_exclusive_one() {
    let mut buffer: Buffer<u32, Dma1Channel2> = Buffer::new(0);
    let first = buffer.borrow();
    let second = buffer.borrow();
    assert_eq!(buffer.counter(), 2);
    assert!(!buffer.can_borrow_mut());
    assert!(!buffer.can_lock_mut());
    first.drop(&mut buffer);
    assert!(!buffer.can_borrow_mut());
    second.drop(&mut buffer);
    assert!(buffer.can_borrow_mut());
}

#[test]
fn exclusive_borrow_rules_out_every_other_access() {
    let mut buffer: Buffer<u32, Dma1Channel2> = Buffer::new(3);
    let mut guard = buffer.borrow_mut();
    assert_eq!(buffer.counter(), WRITING);
    assert_eq!(buffer.state(), State::Unlocked);
    assert!(!buffer.can_borrow());
    assert!(!buffer.can_borrow_mut());
    assert!(!buffer.can_lock());
    assert!(!buffer.can_lock_mut());

    assert_eq!(*guard.deref(&buffer), 3);
    *guard.deref_mut(&mut buffer) = 4;
    assert_eq!(*guard.deref(&buffer), 4);
    assert_eq!(buffer.counter(), WRITING);

    guard.drop(&mut buffer);
    assert_eq!(buffer.counter(), UNUSED);
    assert!(buffer.can_lock());
    assert!(buffer.can_lock_mut());
    let reader = buffer.borrow();
    assert_eq!(*reader.deref(&buffer), 4);
    reader.drop(&mut buffer);
}

#[test]
fn hardware_lock_while_exclusive_guard_is_alive_is_refused() {
    let mut buffer: Buffer<u8, Dma1Channel5> = Buffer::new(0);
    let guard = buffer.borrow_mut();
    assert!(!buffer.can_lock());
    assert!(!buffer.can_lock_mut());
    guard.drop(&mut buffer);
    assert!(buffer.can_lock());
}

#[test]
fn hardware_lock_twice_is_refused() {
    let mut buffer: Buffer<[u8; 2], Dma1Channel4> = Buffer::new([7, 8]);
    assert_eq!(*buffer.lock(), [7, 8]);
    assert_eq!(buffer.state(), State::Locked);
    assert_eq!(buffer.counter(), 1);
    assert!(!buffer.can_lock());
    assert!(!buffer.can_lock_mut());
    assert!(!buffer.can_borrow_mut());

    // guards that come and go do not open the lock
    assert!(buffer.can_borrow());
    let guard = buffer.borrow();
    assert_eq!(buffer.counter(), 2);
    assert!(!buffer.can_lock());
    guard.drop(&mut buffer);
    assert_eq!(buffer.counter(), 1);
    assert_eq!(buffer.state(), State::Locked);
    assert!(!buffer.can_lock());
    assert!(!buffer.can_lock_mut());
}

#[test]
fn exclusive_hardware_lock_twice_is_refused() {
    let mut buffer: Buffer<u16, Dma1Channel2> = Buffer::new(1);
    *buffer.lock_mut() = 2;
    assert_eq!(buffer.state(), State::MutLocked);
    assert_eq!(buffer.counter(), WRITING);
    assert!(!buffer.can_lock());
    assert!(!buffer.can_lock_mut());
    assert!(!buffer.can_borrow());
    assert!(!buffer.can_borrow_mut());
}

#[test]
fn release_of_an_unlocked_buffer_is_idle_whatever_the_flags() {
    let mut buffer: Buffer<u32, Dma1Channel2> = Buffer::new(0);
    let guard = buffer.borrow();
    for flags in [PENDING, COMPLETE, FAILED, FAILED_COMPLETE] {
        assert_eq!(buffer.release(flags), Ok(Action::Idle));
        assert_eq!(buffer.counter(), 1);
        assert_eq!(buffer.state(), State::Unlocked);
    }
    guard.drop(&mut buffer);
}

#[test]
fn pending_transfer_would_block_and_changes_nothing() {
    let mut buffer: Buffer<u32, Dma1Channel5> = Buffer::new(9);
    buffer.lock();
    for _ in 0..100 {
        assert_eq!(buffer.release(PENDING), Err(nb::Error::WouldBlock));
        assert_eq!(buffer.state(), State::Locked);
        assert_eq!(buffer.counter(), 1);
    }

    let mut buffer: Buffer<u32, Dma1Channel5> = Buffer::new(9);
    buffer.lock_mut();
    for _ in 0..100 {
        assert_eq!(buffer.release(PENDING), Err(nb::Error::WouldBlock));
        assert_eq!(buffer.state(), State::MutLocked);
        assert_eq!(buffer.counter(), WRITING);
    }
}

#[test]
fn transfer_error_is_reported_and_never_heals() {
    let mut buffer: Buffer<u32, Dma1Channel4> = Buffer::new(9);
    buffer.lock_mut();
    for flags in [FAILED, FAILED_COMPLETE, FAILED, FAILED] {
        assert_eq!(buffer.release(flags), Err(nb::Error::Other(Error::Transfer)));
        assert_eq!(buffer.state(), State::MutLocked);
        assert_eq!(buffer.counter(), WRITING);
        assert!(!buffer.can_borrow());
        assert!(!buffer.can_lock_mut());
    }

    let mut buffer: Buffer<u32, Dma1Channel4> = Buffer::new(9);
    buffer.lock();
    for flags in [FAILED_COMPLETE, FAILED] {
        assert_eq!(buffer.release(flags), Err(nb::Error::Other(Error::Transfer)));
        assert_eq!(buffer.state(), State::Locked);
        assert_eq!(buffer.counter(), 1);
    }
}

#[test]
fn completed_transfer_is_acknowledged_once() {
    let mut buffer: Buffer<u32, Dma1Channel2> = Buffer::new(9);
    let guard = buffer.borrow();
    buffer.lock();
    assert_eq!(buffer.counter(), 2);
    assert_eq!(buffer.release(PENDING), Err(nb::Error::WouldBlock));

    assert_eq!(buffer.release(COMPLETE), Ok(Action::Acknowledge));
    assert_eq!(buffer.counter(), 1);
    assert_eq!(buffer.state(), State::Unlocked);

    for flags in [COMPLETE, PENDING, FAILED, FAILED_COMPLETE] {
        assert_eq!(buffer.release(flags), Ok(Action::Idle));
        assert_eq!(buffer.counter(), 1);
        assert_eq!(buffer.state(), State::Unlocked);
    }
    assert_eq!(*guard.deref(&buffer), 9);
    guard.drop(&mut buffer);
    assert_eq!(buffer.counter(), UNUSED);
}

#[test]
fn exclusive_transfer_runs_to_completion() {
    let mut buffer: Buffer<[u8; 3], Dma1Channel2> = Buffer::new([0; 3]);
    assert_eq!(buffer.counter(), UNUSED);
    assert_eq!(buffer.state(), State::Unlocked);

    assert!(buffer.can_lock_mut());
    {
        let target = buffer.lock_mut();
        assert_eq!(*target, [0; 3]);
        // what the engine writes while the transfer runs
        *target = [1, 2, 3];
    }
    assert_eq!(buffer.counter(), WRITING);
    assert_eq!(buffer.state(), State::MutLocked);
    assert!(!buffer.can_borrow_mut());

    assert_eq!(buffer.release(COMPLETE), Ok(Action::Acknowledge));
    assert_eq!(buffer.counter(), UNUSED);
    assert_eq!(buffer.state(), State::Unlocked);
    assert_eq!(buffer.release(COMPLETE), Ok(Action::Idle));

    assert!(buffer.can_borrow_mut());
    let guard = buffer.borrow_mut();
    assert_eq!(buffer.counter(), WRITING);
    assert_eq!(*guard.deref(&buffer), [1, 2, 3]);
    guard.drop(&mut buffer);
}

#[test]
fn buffer_can_be_claimed_again_after_completion() {
    let mut buffer: Buffer<u8, Dma1Channel5> = Buffer::new(1);
    buffer.lock();
    assert_eq!(buffer.release(COMPLETE), Ok(Action::Acknowledge));
    assert!(buffer.can_lock());
    buffer.lock();
    assert_eq!(buffer.state(), State::Locked);
    assert_eq!(buffer.counter(), 1);
    assert_eq!(buffer.release(COMPLETE), Ok(Action::Acknowledge));
    assert!(buffer.can_lock_mut());
    buffer.lock_mut();
    assert_eq!(buffer.state(), State::MutLocked);
}

#[test]
fn reserved_errors_differ_from_the_transfer_error() {
    assert_ne!(Error::InUse, Error::Transfer);
    assert_ne!(Error::Overrun, Error::Transfer);
    assert_ne!(Error::InUse, Error::Overrun);
}

#[test]
fn guards_of_the_processor_are_told_from_the_hardware_share() {
    let mut buffer: Buffer<u32, Dma1Channel2> = Buffer::new(0);
    assert_eq!(buffer.shared_guards(), 0);
    assert!(!buffer.exclusive_guard());

    let first = buffer.borrow();
    let second = buffer.borrow();
    assert_eq!(buffer.shared_guards(), 2);
    buffer.lock();
    assert_eq!(buffer.counter(), 3);
    assert_eq!(buffer.shared_guards(), 2);
    first.drop(&mut buffer);
    second.drop(&mut buffer);
    assert_eq!(buffer.counter(), 1);
    assert_eq!(buffer.shared_guards(), 0);
    assert!(!buffer.exclusive_guard());
    assert_eq!(buffer.release(COMPLETE), Ok(Action::Acknowledge));

    let guard = buffer.borrow_mut();
    assert!(buffer.exclusive_guard());
    assert_eq!(buffer.shared_guards(), 0);
    guard.drop(&mut buffer);
    assert!(!buffer.exclusive_guard());

    buffer.lock_mut();
    assert_eq!(buffer.counter(), WRITING);
    assert!(!buffer.exclusive_guard());
    assert_eq!(buffer.shared_guards(), 0);
}
