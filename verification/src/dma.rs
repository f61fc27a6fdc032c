//! Direct Memory Access (DMA)
//!
//! A [`Buffer`] is memory that the processor and one DMA channel take turns
//! to use. The DMA engine reads and writes behind the compiler's back, so the
//! buffer keeps its own books: a borrow counter, in which a hardware transfer
//! takes part like any other borrower, and a lock state that says whether a
//! transfer is outstanding.
//!
//! The buffer owns its payload and is changed through `&mut`. Guards are
//! evidence of a borrow rather than references: they are handed back to the
//! buffer they came from, which then gives up the borrow.

use core::marker::PhantomData;
use nb::Error as NbError;
use vstd::prelude::*;

verus! {

/// Makes the enum `nb::Error` of the `nb` crate known to the verifier, with
/// the two variants that the crate defines: `Other` carries a hard error,
/// `WouldBlock` asks the caller to poll again. Nothing is claimed of it
/// beyond that definition.
#[verifier::external_type_specification]
#[verifier::reject_recursive_types(E)]
pub struct ExNbError<E>(NbError<E>);

/// DMA error
#[derive(Clone, Copy, Debug, PartialEq, Eq)]
pub enum Error {
    /// DMA channel in use
    InUse,
    /// Previous data got overwritten before it could be read because it was
    /// not accessed in a timely fashion
    Overrun,
    /// Transfer error
    Transfer,
}

/// Channel 2 of DMA1
pub struct Dma1Channel2 {
    _0: (),
}

/// Channel 4 of DMA1
pub struct Dma1Channel4 {
    _0: (),
}

/// Channel 5 of DMA1
pub struct Dma1Channel5 {
    _0: (),
}

/// Whether a hardware transfer owns the buffer, and in which way.
#[derive(Clone, Copy, Debug, PartialEq, Eq, Structural)]
pub enum State {
    /// No transfer is outstanding. A new `Buffer` starts in this state.
    Unlocked,
    /// A transfer that reads the buffer is outstanding.
    Locked,
    /// A transfer that writes the buffer is outstanding.
    MutLocked,
}

/// The status bits of one DMA channel, as they were read at a poll.
#[derive(Clone, Copy, Debug, PartialEq, Eq)]
pub struct Flags {
    /// The transfer-complete flag is set.
    pub complete: bool,
    /// The transfer-error flag is set.
    pub error: bool,
}

/// What the caller of [`Buffer::release`] owes the channel after a successful
/// poll.
#[derive(Clone, Copy, Debug, PartialEq, Eq)]
pub enum Action {
    /// Nothing: the buffer was not claimed by any transfer.
    Idle,
    /// Clear the channel's transfer-complete flag, then disable the channel:
    /// the transfer is over and the buffer has just been given back.
    Acknowledge,
}

/// Counter value of a buffer that nobody has borrowed.
pub const UNUSED: usize = 0;

/// Counter value of a buffer that is borrowed exclusively.
pub const WRITING: usize = usize::MAX;

/// What a [`Buffer`] is, to its contracts: the payload and the two entries of
/// its ledger.
pub ghost struct BufferView<T> {
    /// The payload.
    pub data: T,
    /// `UNUSED`, the number of shared borrows, or `WRITING`.
    pub counter: usize,
    /// The hardware's claim.
    pub state: State,
}

impl<T> BufferView<T> {
    /// The ledger is consistent: a reading transfer is counted among the
    /// shared borrows, and a writing transfer holds the exclusive borrow.
    /// Every `Buffer` is consistent at all times.
    pub open spec fn wf(self) -> bool {
        match self.state {
            State::Unlocked => true,
            State::Locked => 1 <= self.counter < WRITING,
            State::MutLocked => self.counter == WRITING,
        }
    }

    /// The share of the counter that belongs to the hardware.
    pub open spec fn hardware_share(self) -> int {
        if self.state == State::Locked {
            1
        } else {
            0
        }
    }

    /// The number of shared guards that the processor holds.
    pub open spec fn shared_guards(self) -> int {
        if self.counter == WRITING {
            0
        } else {
            self.counter - self.hardware_share()
        }
    }

    /// The processor holds the exclusive guard.
    pub open spec fn exclusive_guard(self) -> bool {
        self.counter == WRITING && self.state == State::Unlocked
    }

    /// A shared borrow is admitted: nobody holds the buffer exclusively, and
    /// one more borrow still counts below `WRITING`.
    pub open spec fn can_borrow(self) -> bool {
        self.counter < WRITING - 1
    }

    /// An exclusive borrow is admitted: nobody holds the buffer at all.
    pub open spec fn can_borrow_mut(self) -> bool {
        self.counter == UNUSED
    }

    /// A reading transfer may claim the buffer.
    pub open spec fn can_lock(self) -> bool {
        self.state == State::Unlocked && self.can_borrow()
    }

    /// A writing transfer may claim the buffer.
    pub open spec fn can_lock_mut(self) -> bool {
        self.state == State::Unlocked && self.can_borrow_mut()
    }

    /// The buffer after one more shared borrow.
    pub open spec fn borrowed(self) -> Self {
        BufferView { counter: (self.counter + 1) as usize, ..self }
    }

    /// The buffer after an exclusive borrow.
    pub open spec fn borrowed_mut(self) -> Self {
        BufferView { counter: WRITING, ..self }
    }

    /// The buffer after a shared guard is gone.
    pub open spec fn released(self) -> Self {
        BufferView { counter: (self.counter - 1) as usize, ..self }
    }

    /// The buffer after the exclusive guard is gone.
    pub open spec fn released_mut(self) -> Self {
        BufferView { counter: UNUSED, ..self }
    }

    /// The buffer after a reading transfer has claimed it.
    pub open spec fn locked(self) -> Self {
        BufferView { counter: (self.counter + 1) as usize, state: State::Locked, ..self }
    }

    /// The buffer after a writing transfer has claimed it.
    pub open spec fn locked_mut(self) -> Self {
        BufferView { counter: WRITING, state: State::MutLocked, ..self }
    }

    /// The buffer after a transfer has given back the claim `state`: a
    /// reading transfer leaves the shared borrows, a writing transfer gives
    /// up the exclusive borrow.
    pub open spec fn unlocked(self, state: State) -> Self {
        BufferView {
            counter: match state {
                State::Unlocked => self.counter,
                State::Locked => (self.counter - 1) as usize,
                State::MutLocked => UNUSED,
            },
            state: State::Unlocked,
            ..self
        }
    }

    /// The poll finds a transfer that has completed without error.
    pub open spec fn completes(self, flags: Flags) -> bool {
        self.state != State::Unlocked && !flags.error && flags.complete
    }

    /// What a poll with these status bits reports.
    pub open spec fn release_result(self, flags: Flags) -> Result<Action, NbError<Error>> {
        if self.state == State::Unlocked {
            Ok(Action::Idle)
        } else if flags.error {
            Err(NbError::Other(Error::Transfer))
        } else if flags.complete {
            Ok(Action::Acknowledge)
        } else {
            Err(NbError::WouldBlock)
        }
    }

    /// The buffer after a poll with these status bits: given back if the
    /// transfer has completed, untouched otherwise.
    pub open spec fn after_release(self, flags: Flags) -> Self {
        if self.completes(flags) {
            self.unlocked(self.state)
        } else {
            self
        }
    }
}

impl<T> BufferView<T> {
    /// The buffer after `n` shared borrows in a row.
    pub open spec fn borrowed_times(self, n: nat) -> Self
        decreases n,
    {
        if n == 0 {
            self
        } else {
            self.borrowed_times((n - 1) as nat).borrowed()
        }
    }

    /// The buffer after `n` shared guards are gone.
    pub open spec fn released_times(self, n: nat) -> Self
        decreases n,
    {
        if n == 0 {
            self
        } else {
            self.released_times((n - 1) as nat).released()
        }
    }

    /// The buffer after one poll for each entry of `polls`, in order.
    pub open spec fn after_releases(self, polls: Seq<Flags>) -> Self
        decreases polls.len(),
    {
        if polls.len() == 0 {
            self
        } else {
            self.after_releases(polls.drop_last()).after_release(polls.last())
        }
    }

    proof fn lemma_borrowed_times(self, n: nat)
        requires
            self.counter + n < WRITING,
        ensures
            self.borrowed_times(n) == (BufferView { counter: (self.counter + n) as usize, ..self }),
        decreases n,
    {
        if n > 0 {
            self.lemma_borrowed_times((n - 1) as nat);
        }
    }

    proof fn lemma_released_times(self, n: nat)
        requires
            n <= self.counter,
        ensures
            self.released_times(n) == (BufferView { counter: (self.counter - n) as usize, ..self }),
        decreases n,
    {
        if n > 0 {
            self.lemma_released_times((n - 1) as nat);
        }
    }

    /// Shared borrows add up. On a buffer that is not borrowed exclusively,
    /// `n` shared borrows in a row are all admitted, as long as the counter
    /// can hold them. They leave `n` more guards alive side by side and the
    /// counter higher by `n`, so on a buffer that was unused the counter is
    /// `n`. Each of the `n` guards can then be dropped, and once all are
    /// gone the buffer is as it was before the first borrow.
    pub proof fn lemma_shared_borrows_add_up(self, n: nat)
        requires
            self.wf(),
            self.counter + n < WRITING,
        ensures
            forall|k: nat| k < n ==> (#[trigger] self.borrowed_times(k)).can_borrow(),
            self.borrowed_times(n).wf(),
            self.borrowed_times(n).counter == self.counter + n,
            self.borrowed_times(n).shared_guards() == self.shared_guards() + n,
            self.counter == UNUSED ==> self.borrowed_times(n).counter == n,
            forall|k: nat|
                k < n ==> (#[trigger] self.borrowed_times(n).released_times(k)).shared_guards()
                    >= 1,
            self.borrowed_times(n).released_times(n) == self,
    {
        self.lemma_borrowed_times(n);
        assert forall|k: nat| k < n implies (#[trigger] self.borrowed_times(k)).can_borrow() by {
            self.lemma_borrowed_times(k);
        }
        let top = self.borrowed_times(n);
        assert forall|k: nat| k < n implies (#[trigger] top.released_times(k)).shared_guards()
            >= 1 by {
            top.lemma_released_times(k);
        }
        top.lemma_released_times(n);
    }

    /// An exclusive borrow is admitted exactly when the counter is zero, and
    /// then no transfer is outstanding either. Any guard of the processor,
    /// shared or exclusive, and any claim of the hardware rule it out.
    pub proof fn lemma_borrow_mut_needs_unused(self)
        requires
            self.wf(),
        ensures
            self.can_borrow_mut() <==> self.counter == UNUSED,
            self.can_borrow_mut() ==> self.state == State::Unlocked,
            self.shared_guards() >= 1 ==> !self.can_borrow_mut(),
            self.exclusive_guard() ==> !self.can_borrow_mut(),
            self.state != State::Unlocked ==> !self.can_borrow_mut(),
    {
    }

    /// A claimed buffer cannot be claimed again. After either kind of lock
    /// neither kind is admitted, and borrowing and dropping guards does not
    /// change that: only a poll that sees the transfer complete gives the
    /// buffer back.
    pub proof fn lemma_lock_excludes_lock(self)
        requires
            self.wf(),
        ensures
            self.can_lock() ==> !self.locked().can_lock() && !self.locked().can_lock_mut(),
            self.can_lock_mut() ==> !self.locked_mut().can_lock()
                && !self.locked_mut().can_lock_mut(),
            self.state != State::Unlocked ==> !self.can_lock() && !self.can_lock_mut(),
            self.borrowed().state == self.state,
            self.borrowed_mut().state == self.state,
            self.released().state == self.state,
            self.exclusive_guard() ==> self.released_mut().state == self.state,
    {
    }

    /// Whoever writes is alone. While the processor holds the exclusive
    /// guard there is no shared guard and no transfer, and nothing more is
    /// admitted: no borrow and no lock. While a writing transfer is
    /// outstanding the processor holds no guard and gets none. While a
    /// reading transfer is outstanding nobody writes.
    pub proof fn lemma_writers_are_alone(self)
        requires
            self.wf(),
        ensures
            self.can_borrow_mut() ==> self.borrowed_mut().exclusive_guard(),
            self.exclusive_guard() ==> self.shared_guards() == 0 && self.state == State::Unlocked
                && !self.can_borrow() && !self.can_borrow_mut() && !self.can_lock()
                && !self.can_lock_mut(),
            self.state == State::MutLocked ==> self.shared_guards() == 0
                && !self.exclusive_guard() && !self.can_borrow() && !self.can_borrow_mut(),
            self.state == State::Locked ==> !self.exclusive_guard() && !self.can_borrow_mut(),
    {
    }

    /// Every step that is admitted leaves the ledger consistent, and so
    /// does every poll.
    pub proof fn lemma_steps_keep_wf(self, flags: Flags)
        requires
            self.wf(),
        ensures
            self.can_borrow() ==> self.borrowed().wf(),
            self.can_borrow_mut() ==> self.borrowed_mut().wf(),
            self.shared_guards() >= 1 ==> self.released().wf(),
            self.exclusive_guard() ==> self.released_mut().wf(),
            self.can_lock() ==> self.locked().wf(),
            self.can_lock_mut() ==> self.locked_mut().wf(),
            self.after_release(flags).wf(),
    {
    }

    /// While the transfer is under way, with neither status bit set, a poll
    /// reports that it would block and leaves the buffer as it was.
    pub proof fn lemma_pending_poll_blocks(self, flags: Flags)
        requires
            self.state != State::Unlocked,
            !flags.error,
            !flags.complete,
        ensures
            self.release_result(flags) == Err::<Action, NbError<Error>>(NbError::WouldBlock),
            self.after_release(flags) == self,
    {
    }

    /// A transfer error is reported at every poll, whatever the complete
    /// flag says, and leaves the buffer claimed.
    pub proof fn lemma_error_keeps_claim(self, flags: Flags)
        requires
            self.state != State::Unlocked,
            flags.error,
        ensures
            self.release_result(flags) == Err::<Action, NbError<Error>>(
                NbError::Other(Error::Transfer),
            ),
            self.after_release(flags) == self,
    {
    }

    /// Polls that do not see the transfer complete without error change
    /// nothing, however many there are.
    pub proof fn lemma_unfinished_polls_change_nothing(self, polls: Seq<Flags>)
        requires
            forall|i: int| 0 <= i < polls.len() ==> !self.completes(#[trigger] polls[i]),
        ensures
            self.after_releases(polls) == self,
        decreases polls.len(),
    {
        if polls.len() > 0 {
            self.lemma_unfinished_polls_change_nothing(polls.drop_last());
        }
    }

    /// A completed transfer gives the buffer back exactly once. The poll
    /// that sees it asks for the acknowledgement, takes the hardware's share
    /// out of the counter and unlocks the buffer, and keeps the payload.
    /// Every later poll is a success that asks for nothing and changes
    /// nothing, whatever the status bits.
    pub proof fn lemma_completion_happens_once(self, flags: Flags, later: Flags)
        requires
            self.wf(),
            self.completes(flags),
        ensures
            self.release_result(flags) == Ok::<Action, NbError<Error>>(Action::Acknowledge),
            self.after_release(flags).state == State::Unlocked,
            self.state == State::Locked ==> self.after_release(flags).counter == self.counter
                - 1,
            self.state == State::MutLocked ==> self.after_release(flags).counter == UNUSED,
            self.after_release(flags).shared_guards() == self.shared_guards(),
            self.after_release(flags).data == self.data,
            self.after_release(flags).wf(),
            self.after_release(flags).release_result(later) == Ok::<Action, NbError<Error>>(
                Action::Idle,
            ),
            self.after_release(flags).after_release(later) == self.after_release(flags),
    {
    }
}

/// The books of a buffer: who has borrowed it, and whether a transfer is
/// outstanding.
struct Ledger {
    flag: usize,
    state: State,
}

impl Ledger {
    #[verifier::type_invariant]
    spec fn inv(self) -> bool {
        match self.state {
            State::Unlocked => true,
            State::Locked => 1 <= self.flag < WRITING,
            State::MutLocked => self.flag == WRITING,
        }
    }
}

/// Buffer to be used with a certain DMA `CHANNEL`
pub struct Buffer<T, CHANNEL> {
    data: T,
    ledger: Ledger,
    _marker: PhantomData<CHANNEL>,
}

impl<T, CHANNEL> View for Buffer<T, CHANNEL> {
    type V = BufferView<T>;

    closed spec fn view(&self) -> BufferView<T> {
        BufferView { data: self.data, counter: self.ledger.flag, state: self.ledger.state }
    }
}

/// Evidence of one shared borrow of a [`Buffer`]
pub struct Ref {
    _0: (),
}

/// Evidence of the exclusive borrow of a [`Buffer`]
pub struct RefMut {
    _0: (),
}

impl Ref {
    /// Reads the payload of the buffer that this guard was borrowed from.
    pub fn deref<'a, T, CHANNEL>(&self, buffer: &'a Buffer<T, CHANNEL>) -> (data: &'a T)
        requires
            buffer@.shared_guards() >= 1,
        ensures
            *data == buffer@.data,
    {
        &buffer.data
    }

    /// Ends the borrow: the buffer that this guard was borrowed from counts
    /// one shared borrow less.
    pub fn drop<T, CHANNEL>(self, buffer: &mut Buffer<T, CHANNEL>)
        requires
            old(buffer)@.shared_guards() >= 1,
        ensures
            final(buffer)@ == old(buffer)@.released(),
            final(buffer)@.wf(),
    {
        proof {
            use_type_invariant(&buffer.ledger);
        }
        buffer.ledger = Ledger { flag: buffer.ledger.flag - 1, state: buffer.ledger.state };
    }
}

impl RefMut {
    /// Reads the payload of the buffer that this guard was borrowed from.
    pub fn deref<'a, T, CHANNEL>(&self, buffer: &'a Buffer<T, CHANNEL>) -> (data: &'a T)
        requires
            buffer@.exclusive_guard(),
        ensures
            *data == buffer@.data,
    {
        &buffer.data
    }

    /// Hands out the payload of the buffer that this guard was borrowed
    /// from, to be changed in place.
    pub fn deref_mut<'a, T, CHANNEL>(&mut self, buffer: &'a mut Buffer<T, CHANNEL>) -> (data:
        &'a mut T)
        requires
            old(buffer)@.exclusive_guard(),
        ensures
            *data == old(buffer)@.data,
            final(buffer)@ == (BufferView { data: *final(data), ..old(buffer)@ }),
    {
        &mut buffer.data
    }

    /// Ends the borrow: the buffer that this guard was borrowed from is
    /// unused again.
    pub fn drop<T, CHANNEL>(self, buffer: &mut Buffer<T, CHANNEL>)
        requires
            old(buffer)@.exclusive_guard(),
        ensures
            final(buffer)@ == old(buffer)@.released_mut(),
            final(buffer)@.wf(),
    {
        buffer.ledger = Ledger { flag: UNUSED, state: State::Unlocked };
    }
}

impl<T, CHANNEL> Buffer<T, CHANNEL> {
    /// Creates a new buffer
    pub fn new(data: T) -> (buffer: Self)
        ensures
            buffer@ == (BufferView { data, counter: UNUSED, state: State::Unlocked }),
            buffer@.wf(),
    {
        Buffer { _marker: PhantomData, data, ledger: Ledger { flag: UNUSED, state: State::Unlocked } }
    }

    /// The borrow counter: `UNUSED`, the number of shared borrows (a reading
    /// transfer among them), or `WRITING`.
    pub fn counter(&self) -> (counter: usize)
        ensures
            counter == self@.counter,
            self@.wf(),
    {
        proof {
            use_type_invariant(&self.ledger);
        }
        self.ledger.flag
    }

    /// The hardware's claim on the buffer.
    pub fn state(&self) -> (state: State)
        ensures
            state == self@.state,
            self@.wf(),
    {
        proof {
            use_type_invariant(&self.ledger);
        }
        self.ledger.state
    }

    /// The number of shared guards that the processor holds on this buffer.
    pub fn shared_guards(&self) -> (guards: usize)
        ensures
            guards == self@.shared_guards(),
            self@.wf(),
    {
        proof {
            use_type_invariant(&self.ledger);
        }
        if self.ledger.flag == WRITING {
            0
        } else if self.ledger.state == State::Locked {
            self.ledger.flag - 1
        } else {
            self.ledger.flag
        }
    }

    /// Whether the processor holds the exclusive guard on this buffer.
    pub fn exclusive_guard(&self) -> (yes: bool)
        ensures
            yes == self@.exclusive_guard(),
            self@.wf(),
    {
        proof {
            use_type_invariant(&self.ledger);
        }
        self.ledger.flag == WRITING && self.ledger.state == State::Unlocked
    }

    /// Whether [`Buffer::borrow`] may be called.
    pub fn can_borrow(&self) -> (yes: bool)
        ensures
            yes == self@.can_borrow(),
            self@.wf(),
    {
        proof {
            use_type_invariant(&self.ledger);
        }
        self.ledger.flag < WRITING - 1
    }

    /// Whether [`Buffer::borrow_mut`] may be called.
    pub fn can_borrow_mut(&self) -> (yes: bool)
        ensures
            yes == self@.can_borrow_mut(),
            self@.wf(),
    {
        proof {
            use_type_invariant(&self.ledger);
        }
        self.ledger.flag == UNUSED
    }

    /// Whether [`Buffer::lock`] may be called.
    pub fn can_lock(&self) -> (yes: bool)
        ensures
            yes == self@.can_lock(),
            self@.wf(),
    {
        proof {
            use_type_invariant(&self.ledger);
        }
        self.ledger.state == State::Unlocked && self.ledger.flag < WRITING - 1
    }

    /// Whether [`Buffer::lock_mut`] may be called.
    pub fn can_lock_mut(&self) -> (yes: bool)
        ensures
            yes == self@.can_lock_mut(),
            self@.wf(),
    {
        proof {
            use_type_invariant(&self.ledger);
        }
        self.ledger.state == State::Unlocked && self.ledger.flag == UNUSED
    }

    /// Immutably borrows the wrapped value.
    ///
    /// The borrow lasts until the returned `Ref` is dropped on this buffer.
    /// Multiple immutable borrows can be taken out at the same time.
    pub fn borrow(&mut self) -> (guard: Ref)
        requires
            old(self)@.can_borrow(),
        ensures
            final(self)@ == old(self)@.borrowed(),
            final(self)@.wf(),
    {
        proof {
            use_type_invariant(&self.ledger);
        }
        self.ledger = Ledger { flag: self.ledger.flag + 1, state: self.ledger.state };
        Ref { _0: () }
    }

    /// Mutably borrows the wrapped value.
    ///
    /// The borrow lasts until the returned `RefMut` is dropped on this
    /// buffer. The value cannot be borrowed while this borrow is active.
    pub fn borrow_mut(&mut self) -> (guard: RefMut)
        requires
            old(self)@.can_borrow_mut(),
        ensures
            final(self)@ == old(self)@.borrowed_mut(),
            final(self)@.wf(),
    {
        proof {
            use_type_invariant(&self.ledger);
        }
        self.ledger = Ledger { flag: WRITING, state: State::Unlocked };
        RefMut { _0: () }
    }

    /// Claims the buffer for a transfer that reads it, and hands out the
    /// payload for the driver to take its address.
    ///
    /// The transfer is counted like one more shared borrow. The claim lasts
    /// until [`Buffer::release`] sees the transfer complete.
    pub fn lock(&mut self) -> (data: &T)
        requires
            old(self)@.can_lock(),
        ensures
            final(self)@ == old(self)@.locked(),
            final(self)@.wf(),
            *data == old(self)@.data,
    {
        self.ledger = Ledger { flag: self.ledger.flag + 1, state: State::Locked };
        &self.data
    }

    /// Claims the buffer for a transfer that writes it, and hands out the
    /// payload for the driver to take its address.
    ///
    /// The transfer holds the exclusive borrow. The claim lasts until
    /// [`Buffer::release`] sees the transfer complete.
    pub fn lock_mut(&mut self) -> (data: &mut T)
        requires
            old(self)@.can_lock_mut(),
        ensures
            *data == old(self)@.data,
            final(self)@ == (BufferView { data: *final(data), ..old(self)@.locked_mut() }),
            final(self)@.wf(),
    {
        self.ledger = Ledger { flag: WRITING, state: State::MutLocked };
        &mut self.data
    }

    /// Gives back what a transfer had claimed. `state` is the claim that
    /// was found at the start of the poll.
    fn unlock(&mut self, state: State)
        requires
            state == old(self)@.state,
        ensures
            final(self)@ == old(self)@.unlocked(state),
    {
        proof {
            use_type_invariant(&self.ledger);
        }
        let flag = match state {
            State::Locked => self.ledger.flag - 1,
            State::MutLocked => UNUSED,
            State::Unlocked => self.ledger.flag,
        };
        self.ledger = Ledger { flag, state: State::Unlocked };
    }

    /// Polls for the end of the transfer that has claimed this buffer.
    /// `flags` are the status bits of the buffer's channel, read for this
    /// poll.
    ///
    /// A buffer that no transfer has claimed is reported free whatever the
    /// flags. A transfer error is reported and leaves the claim in place.
    /// A completed transfer gives the buffer back, once, and asks the caller
    /// to acknowledge it on the channel. Else the transfer is still under
    /// way and the poll must be repeated.
    pub fn release(&mut self, flags: Flags) -> (result: Result<Action, NbError<Error>>)
        ensures
            result == old(self)@.release_result(flags),
            final(self)@ == old(self)@.after_release(flags),
            final(self)@.wf(),
    {
        proof {
            use_type_invariant(&self.ledger);
        }
        let state = self.ledger.state;

        if state == State::Unlocked {
            return Ok(Action::Idle);
        }
        if flags.error {
            Err(NbError::Other(Error::Transfer))
        } else if flags.complete {
            self.unlock(state);
            Ok(Action::Acknowledge)
        } else {
            Err(NbError::WouldBlock)
        }
    }
}

} // verus!
