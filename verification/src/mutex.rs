//! Mutual exclusion: a value that only the holder of a kernel mutex can reach.

use vstd::prelude::*;
use crate::base::FreeRtosError;
use crate::base::FreeRtosSemaphoreHandle;
use crate::base::FreeRtosTaskHandle;
use crate::base::FreeRtosUBaseType;
use crate::shim::freertos_rs_get_current_task;
use crate::shim::freertos_rs_vTaskDelay;
use crate::shim::Kernel;
use crate::shim::CONTROL_BLOCK_BYTES;
use crate::units::DurationTicks;

verus! {

pub type Mutex<T> = MutexImpl<T, MutexNormal>;

pub type RecursiveMutex<T> = MutexImpl<T, MutexRecursive>;

/// Who holds a kernel mutex, and how many times over.
pub struct MutexState {
    /// The task that holds the mutex; the null handle stands for the code that
    /// runs outside every task.
    pub holder: Option<FreeRtosTaskHandle>,
    /// How many times the holder has taken the mutex and not given it back.
    pub depth: nat,
}

impl MutexState {
    /// The mutex that nobody holds.
    pub open spec fn free() -> MutexState {
        MutexState { holder: None, depth: 0 }
    }

    /// What holds of every mutex: it is held exactly when it has a holder, a
    /// mutex that is not recursive at most once, and any mutex no more often
    /// than a word can count.
    pub open spec fn wf(self, recursive: bool) -> bool {
        &&& self.depth == 0 <==> self.holder is None
        &&& !recursive ==> self.depth <= 1
        &&& self.depth <= u32::MAX
    }

    /// Whether `task` gets the mutex when it asks: a free mutex goes to anyone,
    /// a held one only to its holder, and only if it is recursive.
    pub open spec fn can_take(self, recursive: bool, task: FreeRtosTaskHandle) -> bool {
        self.depth == 0 || (recursive && self.holder == Some(task) && self.depth < u32::MAX)
    }

    /// The mutex after `task` got it.
    pub open spec fn after_take(self, task: FreeRtosTaskHandle) -> MutexState {
        MutexState { holder: Some(task), depth: self.depth + 1 }
    }

    /// The mutex after its holder gave it back once; a free mutex stays free.
    pub open spec fn after_give(self) -> MutexState {
        if self.depth <= 1 {
            MutexState::free()
        } else {
            MutexState { holder: self.holder, depth: (self.depth - 1) as nat }
        }
    }

    /// The mutex after `task` got it `n` times in a row.
    pub open spec fn after_takes(self, task: FreeRtosTaskHandle, n: nat) -> MutexState
        decreases n,
    {
        if n == 0 {
            self
        } else {
            self.after_takes(task, (n - 1) as nat).after_take(task)
        }
    }

    /// The mutex after it was given back `n` times in a row.
    pub open spec fn after_gives(self, n: nat) -> MutexState
        decreases n,
    {
        if n == 0 {
            self
        } else {
            self.after_gives((n - 1) as nat).after_give()
        }
    }
}

/// Mutual exclusion access to a contained value. Can be recursive -
/// the current owner of a lock can re-lock it.
pub struct MutexImpl<T, M> {
    mutex: M,
    data: T,
}

impl<T, M> View for MutexImpl<T, M> {
    type V = T;

    /// A mutex is seen as the value it protects.
    closed spec fn view(&self) -> T {
        self.data
    }
}

impl<T, M> MutexImpl<T, M> where M: MutexInnerImpl {
    /// The kernel mutex inside.
    pub closed spec fn inner(&self) -> M {
        self.mutex
    }

    /// Create a new mutex with the given inner value. Fails with `OutOfMemory`
    /// exactly when the kernel has no room for the mutex.
    pub fn new(k: &mut Kernel, value: T) -> (r: Result<Self, FreeRtosError>)
        requires
            old(k).wf(),
        ensures
            final(k).wf(),
            match r {
                Ok(m) => {
                    &&& old(k)@.can_allocate(CONTROL_BLOCK_BYTES)
                    &&& m@ == value
                    &&& m.inner().inv()
                    &&& m.inner().state() == MutexState::free()
                    &&& m.inner().handle() == old(k)@.next_handle
                    &&& final(k)@ == old(k)@.after_allocate(CONTROL_BLOCK_BYTES)
                },
                Err(e) => {
                    &&& !old(k)@.can_allocate(CONTROL_BLOCK_BYTES)
                    &&& e == FreeRtosError::OutOfMemory
                    &&& final(k)@ == old(k)@
                },
            },
    {
        match M::create(k) {
            Ok(mutex) => Ok(Self::from_parts(mutex, value)),
            Err(e) => Err(e),
        }
    }

    /// Try to obtain a lock and mutable access to our inner value. The running
    /// task gets the lock at once where the kernel mutex lets it; the guard
    /// then borrows the value and the kernel mutex until it is unlocked.
    /// Otherwise the whole wait passes and the call fails with `MutexTimeout`.
    /// A wait without end for a mutex that the task cannot have never
    /// returns, and is not to be made.
    pub fn lock<'a, D: DurationTicks>(&'a mut self, k: &mut Kernel, max_wait: D) -> (r: Result<
        MutexGuard<'a, T, M>,
        FreeRtosError,
    >)
        requires
            old(self).inner().inv(),
            old(k).wf(),
            old(k)@.wait_ends(
                max_wait.ticks_of(),
                old(self).inner().state().can_take(old(self).inner().recursive(), old(k)@.current),
            ),
        ensures
            final(k).wf(),
            match r {
                Ok(guard) => {
                    &&& old(self).inner().state().can_take(
                        old(self).inner().recursive(),
                        old(k)@.current,
                    )
                    &&& guard.__mutex.inv()
                    &&& guard.__mutex.handle() == old(self).inner().handle()
                    &&& guard.__mutex.recursive() == old(self).inner().recursive()
                    &&& guard.__mutex.state() == old(self).inner().state().after_take(
                        old(k)@.current,
                    )
                    &&& *guard.__data == old(self)@
                    &&& final(self).inner() == *final(guard.__mutex)
                    &&& final(self)@ == *final(guard.__data)
                    &&& final(k)@ == old(k)@
                },
                Err(e) => {
                    &&& !old(self).inner().state().can_take(
                        old(self).inner().recursive(),
                        old(k)@.current,
                    )
                    &&& e == FreeRtosError::MutexTimeout
                    &&& final(self).inner().inv()
                    &&& final(self).inner().handle() == old(self).inner().handle()
                    &&& final(self).inner().recursive() == old(self).inner().recursive()
                    &&& final(self).inner().state() == old(self).inner().state()
                    &&& final(self)@ == old(self)@
                    &&& final(k)@ == old(k)@.after_wait(max_wait.ticks_of())
                },
            },
    {
        match self.mutex.take(k, max_wait) {
            Ok(_) => Ok(MutexGuard { __mutex: &mut self.mutex, __data: &mut self.data }),
            Err(e) => Err(e),
        }
    }

    /// Consume the mutex and return its inner value. The kernel mutex is
    /// deleted.
    pub fn into_inner(self, k: &mut Kernel) -> (value: T)
        requires
            old(k).wf(),
        ensures
            final(k).wf(),
            value == self@,
            final(k)@ == old(k)@.after_release(CONTROL_BLOCK_BYTES),
    {
        let parts = self.into_parts();
        parts.0.delete(k);
        parts.1
    }

    /// Get mutable reference to inner value.
    ///
    /// This method does not lock the mutex because mutable reference guarantees exclusive access.
    pub fn get_mut(&mut self) -> (value: &mut T)
        ensures
            *value == old(self)@,
            final(self)@ == *final(value),
            final(self).inner() == old(self).inner(),
    {
        &mut self.data
    }

    /// Create owning mutex from non-owning mutex and inner value.
    ///
    /// It is safe to pass an already locked `mutex` although it is not recommended.
    pub fn from_parts(mutex: M, value: T) -> (m: Self)
        ensures
            m.inner() == mutex,
            m@ == value,
    {
        Self { mutex, data: value }
    }

    /// Split owning mutex into non-owning mutex and inner value.
    pub fn into_parts(self) -> (parts: (M, T))
        ensures
            parts.0 == self.inner(),
            parts.1 == self@,
    {
        (self.mutex, self.data)
    }

    /// Get mutable reference to inner non-owning mutex.
    pub fn inner_mutex_mut(&mut self) -> (mutex: &mut M)
        ensures
            *mutex == old(self).inner(),
            final(self).inner() == *final(mutex),
            final(self)@ == old(self)@,
    {
        &mut self.mutex
    }
}

/// Holds the mutex until it is unlocked.
pub struct MutexGuard<'a, T, M> where M: MutexInnerImpl {
    pub __mutex: &'a mut M,
    pub __data: &'a mut T,
}

impl<'a, T, M> MutexGuard<'a, T, M> where M: MutexInnerImpl {
    /// The protected value.
    pub fn deref(&self) -> (value: &T)
        ensures
            *value == *old(self.__data),
    {
        &*self.__data
    }

    /// The protected value, to change it.
    pub fn deref_mut(&mut self) -> (value: &mut T)
        ensures
            *value == *old(self).__data,
            *final(self).__data == *final(value),
            *final(final(self).__data) == *final(old(self).__data),
            final(self).__mutex == old(self).__mutex,
    {
        &mut *self.__data
    }

    /// Ends the guard: the kernel mutex is given back once, and the value
    /// stays as the guard leaves it.
    pub fn unlock(self)
        requires
            self.__mutex.inv(),
        ensures
            final(self.__mutex).inv(),
            final(self.__mutex).handle() == old(self.__mutex).handle(),
            final(self.__mutex).recursive() == old(self.__mutex).recursive(),
            final(self.__mutex).state() == old(self.__mutex).state().after_give(),
            *final(self.__data) == *old(self.__data),
    {
        self.__mutex.give();
    }
}

/// A kernel mutex without a value: what [`MutexImpl`] is built on.
pub trait MutexInnerImpl: Sized {
    /// Who holds the mutex, and how many times over.
    spec fn state(&self) -> MutexState;

    /// Whether the holder may take the mutex again.
    spec fn recursive(&self) -> bool;

    /// The handle of the mutex.
    spec fn handle(&self) -> FreeRtosSemaphoreHandle;

    /// What holds of every mutex of this kind.
    spec fn inv(&self) -> bool;

    /// Creates a mutex that nobody holds. Fails with `OutOfMemory` exactly
    /// when the kernel has no room for it.
    fn create(k: &mut Kernel) -> (r: Result<Self, FreeRtosError>)
        requires
            old(k).wf(),
        ensures
            final(k).wf(),
            match r {
                Ok(m) => {
                    &&& old(k)@.can_allocate(CONTROL_BLOCK_BYTES)
                    &&& m.inv()
                    &&& m.state() == MutexState::free()
                    &&& m.handle() == old(k)@.next_handle
                    &&& final(k)@ == old(k)@.after_allocate(CONTROL_BLOCK_BYTES)
                },
                Err(e) => {
                    &&& !old(k)@.can_allocate(CONTROL_BLOCK_BYTES)
                    &&& e == FreeRtosError::OutOfMemory
                    &&& final(k)@ == old(k)@
                },
            },
    ;

    /// Takes the mutex for the running task. Where the task cannot have it,
    /// the whole wait passes and the call fails with `MutexTimeout`. A wait
    /// without end for a mutex that the task cannot have never returns, and
    /// is not to be made.
    fn take<D: DurationTicks>(&mut self, k: &mut Kernel, max_wait: D) -> (r: Result<
        (),
        FreeRtosError,
    >)
        requires
            old(self).inv(),
            old(k).wf(),
            old(k)@.wait_ends(
                max_wait.ticks_of(),
                old(self).state().can_take(old(self).recursive(), old(k)@.current),
            ),
        ensures
            final(self).inv(),
            final(k).wf(),
            final(self).handle() == old(self).handle(),
            final(self).recursive() == old(self).recursive(),
            match r {
                Ok(_) => {
                    &&& old(self).state().can_take(old(self).recursive(), old(k)@.current)
                    &&& final(self).state() == old(self).state().after_take(old(k)@.current)
                    &&& final(k)@ == old(k)@
                },
                Err(e) => {
                    &&& !old(self).state().can_take(old(self).recursive(), old(k)@.current)
                    &&& e == FreeRtosError::MutexTimeout
                    &&& final(self).state() == old(self).state()
                    &&& final(k)@ == old(k)@.after_wait(max_wait.ticks_of())
                },
            },
    ;

    /// Gives the mutex back once.
    fn give(&mut self)
        requires
            old(self).inv(),
        ensures
            final(self).inv(),
            final(self).handle() == old(self).handle(),
            final(self).recursive() == old(self).recursive(),
            final(self).state() == old(self).state().after_give(),
    ;

    fn raw_handle(&self) -> (handle: FreeRtosSemaphoreHandle)
        ensures
            handle == self.handle(),
    ;

    /// Deletes the mutex: its memory goes back to the kernel.
    fn delete(self, k: &mut Kernel)
        requires
            old(k).wf(),
        ensures
            final(k).wf(),
            final(k)@ == old(k)@.after_release(CONTROL_BLOCK_BYTES),
    ;
}

/// A mutex that its holder cannot take again.
pub struct MutexNormal {
    handle: FreeRtosSemaphoreHandle,
    holder: Option<FreeRtosTaskHandle>,
}

impl MutexInnerImpl for MutexNormal {
    closed spec fn state(&self) -> MutexState {
        MutexState {
            holder: self.holder,
            depth: if self.holder is Some {
                1
            } else {
                0
            },
        }
    }

    open spec fn recursive(&self) -> bool {
        false
    }

    closed spec fn handle(&self) -> FreeRtosSemaphoreHandle {
        self.handle
    }

    closed spec fn inv(&self) -> bool {
        self.handle != 0
    }

    fn create(k: &mut Kernel) -> (r: Result<Self, FreeRtosError>) {
        let m = k.allocate(CONTROL_BLOCK_BYTES);
        if m == 0 {
            return Err(FreeRtosError::OutOfMemory);
        }
        Ok(MutexNormal { handle: m, holder: None })
    }

    fn take<D: DurationTicks>(&mut self, k: &mut Kernel, max_wait: D) -> (r: Result<
        (),
        FreeRtosError,
    >) {
        if self.holder.is_none() {
            self.holder = Some(freertos_rs_get_current_task(k));
            Ok(())
        } else {
            freertos_rs_vTaskDelay(k, max_wait.to_ticks());
            Err(FreeRtosError::MutexTimeout)
        }
    }

    fn give(&mut self) {
        self.holder = None;
    }

    #[inline]
    fn raw_handle(&self) -> (handle: FreeRtosSemaphoreHandle) {
        self.handle
    }

    fn delete(self, k: &mut Kernel) {
        k.release(CONTROL_BLOCK_BYTES);
    }
}

/// A mutex that its holder can take again, and has to give back as often.
pub struct MutexRecursive {
    handle: FreeRtosSemaphoreHandle,
    holder: Option<FreeRtosTaskHandle>,
    depth: FreeRtosUBaseType,
}

impl MutexInnerImpl for MutexRecursive {
    closed spec fn state(&self) -> MutexState {
        MutexState { holder: self.holder, depth: self.depth as nat }
    }

    open spec fn recursive(&self) -> bool {
        true
    }

    closed spec fn handle(&self) -> FreeRtosSemaphoreHandle {
        self.handle
    }

    closed spec fn inv(&self) -> bool {
        &&& self.handle != 0
        &&& self.depth == 0 <==> self.holder is None
    }

    fn create(k: &mut Kernel) -> (r: Result<Self, FreeRtosError>) {
        let m = k.allocate(CONTROL_BLOCK_BYTES);
        if m == 0 {
            return Err(FreeRtosError::OutOfMemory);
        }
        Ok(MutexRecursive { handle: m, holder: None, depth: 0 })
    }

    fn take<D: DurationTicks>(&mut self, k: &mut Kernel, max_wait: D) -> (r: Result<
        (),
        FreeRtosError,
    >) {
        let task = freertos_rs_get_current_task(k);
        let free = self.depth == 0;
        let mine = match self.holder {
            Some(holder) => holder == task && self.depth < u32::MAX,
            None => false,
        };
        if free || mine {
            self.holder = Some(task);
            self.depth = self.depth + 1;
            Ok(())
        } else {
            freertos_rs_vTaskDelay(k, max_wait.to_ticks());
            Err(FreeRtosError::MutexTimeout)
        }
    }

    fn give(&mut self) {
        if self.depth <= 1 {
            self.depth = 0;
            self.holder = None;
        } else {
            self.depth = self.depth - 1;
        }
    }

    #[inline]
    fn raw_handle(&self) -> (handle: FreeRtosSemaphoreHandle) {
        self.handle
    }

    fn delete(self, k: &mut Kernel) {
        k.release(CONTROL_BLOCK_BYTES);
    }
}

/// The states of the two kinds of mutex are well formed.
pub proof fn lemma_mutex_states_wf(normal: MutexNormal, recursive: MutexRecursive)
    requires
        normal.inv(),
        recursive.inv(),
    ensures
        normal.state().wf(false),
        recursive.state().wf(true),
{
}

/// Mutual exclusion: once a task has got a mutex, no other task gets it, and
/// a mutex that is not recursive does not even go to its holder again. When
/// the holder of a mutex held once gives it back, the mutex is free, and the
/// next task that asks gets it, alone.
pub proof fn lemma_mutual_exclusion(
    s: MutexState,
    recursive: bool,
    a: FreeRtosTaskHandle,
    b: FreeRtosTaskHandle,
)
    requires
        s.wf(recursive),
        s.can_take(recursive, a),
        a != b,
    ensures
        s.after_take(a).wf(recursive),
        s.after_take(a).holder == Some(a),
        !s.after_take(a).can_take(recursive, b),
        !recursive ==> !s.after_take(a).can_take(recursive, a),
        s.depth == 0 ==> s.after_take(a).after_give() == MutexState::free(),
        MutexState::free().can_take(recursive, b),
        !MutexState::free().after_take(b).can_take(recursive, a),
{
}

/// Taking a mutex `n` times in a row from free, where each take is allowed,
/// leaves it held `n` times by the taker.
pub proof fn lemma_after_takes(task: FreeRtosTaskHandle, n: nat)
    requires
        n <= u32::MAX,
    ensures
        n > 0 ==> MutexState::free().after_takes(task, n) == (MutexState {
            holder: Some(task),
            depth: n,
        }),
        n == 0 ==> MutexState::free().after_takes(task, n) == MutexState::free(),
        forall|j: nat|
            j < n ==> (#[trigger] MutexState::free().after_takes(task, j)).can_take(true, task),
    decreases n,
{
    if n > 0 {
        lemma_after_takes(task, (n - 1) as nat);
        assert forall|j: nat| j < n implies (#[trigger] MutexState::free().after_takes(
            task,
            j,
        )).can_take(true, task) by {
            if j == n - 1 {
            }
        }
    }
}

/// Giving back `j` times a mutex that is held `n` times, `j` no more than
/// `n`, leaves it held `n - j` times by the same holder, and free at `n`.
pub proof fn lemma_after_gives(task: FreeRtosTaskHandle, n: nat, j: nat)
    requires
        0 < n,
        j <= n,
    ensures
        j < n ==> (MutexState { holder: Some(task), depth: n }).after_gives(j) == (MutexState {
            holder: Some(task),
            depth: (n - j) as nat,
        }),
        j == n ==> (MutexState { holder: Some(task), depth: n }).after_gives(j)
            == MutexState::free(),
    decreases j,
{
    if j > 0 {
        lemma_after_gives(task, n, (j - 1) as nat);
    }
}

/// Re-entrance: the holder of a recursive mutex gets it `n` times in a row.
/// While it has given it back fewer than `n` times no other task gets it;
/// after `n` times the mutex is free and another task gets it.
pub proof fn lemma_recursive_reentrance(
    owner: FreeRtosTaskHandle,
    other: FreeRtosTaskHandle,
    n: nat,
    j: nat,
)
    requires
        0 < n <= u32::MAX,
        j <= n,
        owner != other,
    ensures
        forall|i: nat|
            i < n ==> (#[trigger] MutexState::free().after_takes(owner, i)).can_take(true, owner),
        j < n ==> !MutexState::free().after_takes(owner, n).after_gives(j).can_take(true, other),
        j == n ==> MutexState::free().after_takes(owner, n).after_gives(j).can_take(true, other),
        MutexState::free().after_takes(owner, n).after_gives(n) == MutexState::free(),
{
    lemma_after_takes(owner, n);
    lemma_after_gives(owner, n, j);
    lemma_after_gives(owner, n, n);
}

} // verus!
