use freertos_rust::CriticalRegion;
use freertos_rust::ExclusiveData;
use freertos_rust::FreeRtosSchedulerState;
use freertos_rust::FreeRtosUtils;
use freertos_rust::InterruptContext;
use freertos_rust::Kernel;
use freertos_rust::KernelConfig;
use freertos_rust::SuspendScheduler;
use freertos_rust::Task;

fn kernel() -> Kernel {
    Kernel::new(KernelConfig { tick_period_ms: 1, max_wait: 0xffff_ffff, heap_size: 65536, word_bytes: 4 })
}

#[test]
fn context_without_a_woken_task_asks_for_no_yield() {
    let mut k = kernel();
    let context = InterruptContext::new();
    assert_eq!(context.higher_priority_task_woken(), 0);
    context.finish(&mut k);
    assert!(!k.yield_pending());
}

#[test]
fn context_with_a_woken_task_asks_for_a_yield() {
    let mut k = kernel();
    let mut context = InterruptContext::new();
    *context.get_task_field_mut() = 1;
    assert_eq!(context.higher_priority_task_woken(), 1);
    context.finish(&mut k);
    assert!(k.yield_pending());
    let task = Task::new().stack_size(16).start(&mut k).unwrap();
    k.start();
    assert!(k.switch_to(task.raw_handle()));
    assert!(!k.yield_pending());
}

#[test]
fn context_with_any_flag_other_than_zero_asks_for_a_yield() {
    for flag in [-1, 2, i32::MAX, i32::MIN] {
        let mut k = kernel();
        let mut context = InterruptContext::new();
        *context.get_task_field_mut() = flag;
        context.finish(&mut k);
        assert!(k.yield_pending());
    }
}

#[test]
fn yield_is_due_exactly_when_the_flag_is_set() {
    let mut context = InterruptContext::new();
    assert!(!context.must_yield());
    *context.get_task_field_mut() = 1;
    assert!(context.must_yield());
    *context.get_task_field_mut() = 0;
    assert!(!context.must_yield());
}

#[test]
fn critical_regions_nest() {
    let mut k = kernel();
    let task = Task::new().stack_size(16).start(&mut k).unwrap();
    k.start();
    let outer = CriticalRegion::enter(&mut k);
    let inner = CriticalRegion::enter(&mut k);
    assert_eq!(k.critical_depth(), 2);
    assert!(!k.switch_to(task.raw_handle()));
    inner.exit(&mut k);
    assert_eq!(k.critical_depth(), 1);
    assert!(!k.switch_to(task.raw_handle()));
    outer.exit(&mut k);
    assert_eq!(k.critical_depth(), 0);
    assert!(k.switch_to(task.raw_handle()));
}

#[test]
fn exclusive_data_is_reached_inside_a_critical_region() {
    let mut k = kernel();
    let mut data = ExclusiveData::new(vec![1u8, 2]);
    {
        let mut guard = data.lock(&mut k).unwrap();
        assert_eq!(k.critical_depth(), 1);
        guard.deref_mut().push(3);
        assert_eq!(guard.deref().len(), 3);
        guard.unlock(&mut k);
    }
    assert_eq!(k.critical_depth(), 0);
    let mut context = InterruptContext::new();
    {
        let mut guard = data.lock_from_isr(&mut context).unwrap();
        guard.deref_mut().push(4);
        assert_eq!(*guard.deref(), vec![1, 2, 3, 4]);
    }
    assert_eq!(k.critical_depth(), 0);
    let guard = data.lock(&mut k).unwrap();
    assert_eq!(*guard.deref(), vec![1, 2, 3, 4]);
    guard.unlock(&mut k);
}

#[test]
fn suspend_scheduler_guards_its_data() {
    let mut k = kernel();
    let task = Task::new().stack_size(16).start(&mut k).unwrap();
    k.start();
    let mut data = SuspendScheduler::new(10u32);
    {
        let mut guard = data.lock(&mut k);
        assert_eq!(FreeRtosUtils::scheduler_state(&k), FreeRtosSchedulerState::Suspended);
        assert!(!k.switch_to(task.raw_handle()));
        *guard.deref_mut() += 5;
        assert_eq!(*guard.deref(), 15);
        guard.unlock(&mut k);
    }
    assert_eq!(FreeRtosUtils::scheduler_state(&k), FreeRtosSchedulerState::Running);
    assert!(k.switch_to(task.raw_handle()));
    *data.get_mut() += 1;
    assert_eq!(data.into_inner(), 16);
}
