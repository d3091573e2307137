use freertos_rust::CurrentTask;
use freertos_rust::Duration;
use freertos_rust::FreeRtosError;
use freertos_rust::FreeRtosUtils;
use freertos_rust::InterruptContext;
use freertos_rust::Kernel;
use freertos_rust::KernelConfig;
use freertos_rust::Timer;

fn kernel(heap_size: usize) -> Kernel {
    Kernel::new(KernelConfig { tick_period_ms: 1, max_wait: 0xffff_ffff, heap_size, word_bytes: 4 })
}

#[test]
fn reloading_timer_fires_once_per_period() {
    let mut k = kernel(1024);
    let mut timer = Timer::new(Duration::from_ticks(100)).set_name("tick").set_auto_reload(true).create(&mut k).unwrap();
    assert_ne!(timer.raw_handle(), 0);
    let mut counter: u32 = 0;
    let mut seen = vec![counter];
    assert_eq!(timer.start(&mut k, Duration::zero()), Ok(()));
    for _ in 0..7 {
        CurrentTask::delay(&mut k, Duration::from_ticks(50));
        for _ in 0..timer.expirations(&k) {
            counter += 1;
        }
        seen.push(counter);
    }
    assert_eq!(FreeRtosUtils::get_tick_count(&k), 350);
    assert!(counter >= 3);
    assert_eq!(counter, 3);
    assert_eq!(seen, vec![0, 0, 1, 1, 2, 2, 3, 3]);
    assert!(seen.windows(2).all(|w| w[0] <= w[1]));
}

#[test]
fn expirations_missed_are_all_due() {
    let mut k = kernel(1024);
    let mut timer = Timer::new(Duration::from_ticks(100)).create(&mut k).unwrap();
    timer.start(&mut k, Duration::zero()).unwrap();
    CurrentTask::delay(&mut k, Duration::from_ticks(350));
    assert_eq!(timer.expirations(&k), 3);
    assert_eq!(timer.expirations(&k), 0);
    CurrentTask::delay(&mut k, Duration::from_ticks(49));
    assert_eq!(timer.expirations(&k), 0);
    CurrentTask::delay(&mut k, Duration::from_ticks(1));
    assert_eq!(timer.expirations(&k), 1);
}

#[test]
fn timer_not_started_does_not_fire() {
    let mut k = kernel(1024);
    let mut timer = Timer::new(Duration::from_ticks(10)).create(&mut k).unwrap();
    CurrentTask::delay(&mut k, Duration::from_ticks(100));
    assert_eq!(timer.expirations(&k), 0);
    timer.start(&mut k, Duration::zero()).unwrap();
    CurrentTask::delay(&mut k, Duration::from_ticks(25));
    assert_eq!(timer.stop(&mut k, Duration::zero()), Ok(()));
    assert_eq!(timer.expirations(&k), 0);
}

#[test]
fn one_shot_timer_fires_once() {
    let mut k = kernel(1024);
    let mut timer = Timer::new(Duration::from_ticks(10)).set_auto_reload(false).create(&mut k).unwrap();
    timer.start(&mut k, Duration::zero()).unwrap();
    CurrentTask::delay(&mut k, Duration::from_ticks(9));
    assert_eq!(timer.expirations(&k), 0);
    CurrentTask::delay(&mut k, Duration::from_ticks(100));
    assert_eq!(timer.expirations(&k), 1);
    CurrentTask::delay(&mut k, Duration::from_ticks(100));
    assert_eq!(timer.expirations(&k), 0);
    let mut context = InterruptContext::new();
    assert_eq!(timer.start_from_isr(&mut k, &mut context), Ok(()));
    assert_eq!(context.higher_priority_task_woken(), 0);
    CurrentTask::delay(&mut k, Duration::from_ticks(10));
    assert_eq!(timer.expirations(&k), 1);
}

#[test]
fn changed_period_counts_from_the_change() {
    let mut k = kernel(1024);
    let mut timer = Timer::new(Duration::from_ticks(100)).create(&mut k).unwrap();
    timer.start(&mut k, Duration::zero()).unwrap();
    CurrentTask::delay(&mut k, Duration::from_ticks(90));
    assert_eq!(timer.change_period(&mut k, Duration::zero(), Duration::from_ticks(20)), Ok(()));
    CurrentTask::delay(&mut k, Duration::from_ticks(45));
    assert_eq!(timer.expirations(&k), 2);
    assert_eq!(
        timer.change_period(&mut k, Duration::from_ticks(3), Duration::zero()),
        Err(FreeRtosError::Timeout)
    );
    assert_eq!(FreeRtosUtils::get_tick_count(&k), 138);
    CurrentTask::delay(&mut k, Duration::from_ticks(2));
    assert_eq!(timer.expirations(&k), 0);
    CurrentTask::delay(&mut k, Duration::from_ticks(10));
    assert_eq!(timer.expirations(&k), 1);
}

#[test]
fn timer_counts_across_the_wrap_of_the_clock() {
    let mut k = kernel(1024);
    CurrentTask::delay(&mut k, Duration::from_ticks(u32::MAX - 9));
    let mut timer = Timer::new(Duration::from_ticks(10)).create(&mut k).unwrap();
    timer.start(&mut k, Duration::zero()).unwrap();
    CurrentTask::delay(&mut k, Duration::from_ticks(25));
    assert_eq!(FreeRtosUtils::get_tick_count(&k), 15);
    assert_eq!(timer.expirations(&k), 2);
}

#[test]
fn timer_service_queue_fills_until_the_scheduler_runs() {
    let mut k = kernel(1024);
    let mut timer = Timer::new(Duration::from_ticks(10)).create(&mut k).unwrap();
    for _ in 0..5 {
        assert_eq!(timer.start(&mut k, Duration::from_ticks(7)), Ok(()));
        assert_eq!(timer.stop(&mut k, Duration::from_ticks(7)), Ok(()));
    }
    assert_eq!(k.timer_commands(), 10);
    assert_eq!(timer.start(&mut k, Duration::from_ticks(7)), Err(FreeRtosError::Timeout));
    assert_eq!(timer.stop(&mut k, Duration::from_ticks(7)), Err(FreeRtosError::Timeout));
    assert_eq!(
        timer.change_period(&mut k, Duration::from_ticks(7), Duration::from_ticks(3)),
        Err(FreeRtosError::Timeout)
    );
    let mut context = InterruptContext::new();
    assert_eq!(timer.start_from_isr(&mut k, &mut context), Err(FreeRtosError::QueueSendTimeout));
    assert_eq!(FreeRtosUtils::get_tick_count(&k), 0);
    CurrentTask::delay(&mut k, Duration::from_ticks(100));
    assert_eq!(timer.expirations(&k), 0);
    k.start();
    assert_eq!(k.timer_commands(), 0);
    for _ in 0..20 {
        assert_eq!(timer.start(&mut k, Duration::zero()), Ok(()));
    }
    assert_eq!(k.timer_commands(), 0);
    CurrentTask::delay(&mut k, Duration::from_ticks(10));
    assert_eq!(timer.expirations(&k), 1);
}

#[test]
fn timer_that_cannot_ask_to_be_deleted_stays() {
    let mut k = kernel(1024);
    let mut timer = Timer::new(Duration::from_ticks(10)).create(&mut k).unwrap();
    for _ in 0..10 {
        timer.stop(&mut k, Duration::zero()).unwrap();
    }
    timer.delete(&mut k);
    assert_eq!(k.heap_free(), 1024 - 64);
}

#[test]
fn timer_creation_follows_the_handle() {
    assert_eq!(Timer::create_result(0), Err(FreeRtosError::OutOfMemory));
    assert_eq!(Timer::create_result(5), Ok(5));
}

#[test]
fn timer_creation_and_deletion() {
    let mut k = kernel(64);
    assert_eq!(Timer::new(Duration::zero()).create(&mut k).err(), Some(FreeRtosError::OutOfMemory));
    let timer = Timer::new(Duration::eps()).create(&mut k).unwrap();
    assert_eq!(k.heap_free(), 0);
    assert_eq!(Timer::new(Duration::eps()).create(&mut k).err(), Some(FreeRtosError::OutOfMemory));
    timer.delete(&mut k);
    assert_eq!(k.heap_free(), 64);
    let kept = Timer::new(Duration::eps()).set_period(Duration::from_ticks(5)).create(&mut k).unwrap();
    kept.detach();
    assert_eq!(k.heap_free(), 0);
}
