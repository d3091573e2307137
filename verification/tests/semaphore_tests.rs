use freertos_rust::Duration;
use freertos_rust::FreeRtosError;
use freertos_rust::FreeRtosUtils;
use freertos_rust::InterruptContext;
use freertos_rust::Kernel;
use freertos_rust::KernelConfig;
use freertos_rust::Semaphore;

fn kernel(heap_size: usize) -> Kernel {
    Kernel::new(KernelConfig { tick_period_ms: 1, max_wait: 0xffff_ffff, heap_size, word_bytes: 4 })
}

#[test]
fn binary_semaphore_starts_empty() {
    let mut k = kernel(1024);
    let mut s = Semaphore::new_binary(&mut k).unwrap();
    assert_ne!(s.raw_handle(), 0);
    assert_eq!(s.take(&mut k, Duration::from_ticks(3)), Err(FreeRtosError::Timeout));
    assert_eq!(FreeRtosUtils::get_tick_count(&k), 3);
    assert!(s.give());
    assert!(!s.give());
    assert_eq!(s.take(&mut k, Duration::zero()), Ok(()));
    assert_eq!(s.take(&mut k, Duration::zero()), Err(FreeRtosError::Timeout));
    s.delete(&mut k);
    assert_eq!(k.heap_free(), 1024);
}

#[test]
fn counting_semaphore_counts() {
    let mut k = kernel(1024);
    let mut s = Semaphore::new_counting(&mut k, 3, 2).unwrap();
    assert_eq!(s.take(&mut k, Duration::zero()), Ok(()));
    assert_eq!(s.take(&mut k, Duration::zero()), Ok(()));
    assert_eq!(s.take(&mut k, Duration::zero()), Err(FreeRtosError::Timeout));
    assert!(s.give());
    assert!(s.give());
    assert!(s.give());
    assert!(!s.give());
}

#[test]
fn counting_semaphore_with_bad_limits_is_not_created() {
    let mut k = kernel(1024);
    assert_eq!(Semaphore::new_counting(&mut k, 0, 0).err(), Some(FreeRtosError::OutOfMemory));
    assert_eq!(Semaphore::new_counting(&mut k, 2, 3).err(), Some(FreeRtosError::OutOfMemory));
    assert_eq!(k.heap_free(), 1024);
    let mut small = kernel(63);
    assert_eq!(Semaphore::new_binary(&mut small).err(), Some(FreeRtosError::OutOfMemory));
    assert_eq!(Semaphore::new_counting(&mut small, 1, 1).err(), Some(FreeRtosError::OutOfMemory));
}

#[test]
fn guard_gives_the_semaphore_back() {
    let mut k = kernel(1024);
    let mut s = Semaphore::new_counting(&mut k, 1, 1).unwrap();
    let guard = s.lock(&mut k, Duration::zero()).unwrap();
    guard.unlock();
    let guard = s.lock(&mut k, Duration::zero()).unwrap();
    drop(guard);
    assert_eq!(s.lock(&mut k, Duration::from_ticks(1)).err(), Some(FreeRtosError::Timeout));
    assert_eq!(FreeRtosUtils::get_tick_count(&k), 1);
}

#[test]
fn semaphore_from_an_interrupt() {
    let mut k = kernel(1024);
    let mut s = Semaphore::new_binary(&mut k).unwrap();
    let mut context = InterruptContext::new();
    assert!(!s.take_from_isr(&mut context));
    assert!(s.give_from_isr(&mut context));
    assert!(!s.give_from_isr(&mut context));
    assert!(s.take_from_isr(&mut context));
    assert_eq!(context.higher_priority_task_woken(), 0);
}
