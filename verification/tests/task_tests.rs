use freertos_rust::base::FreeRtosTaskStatusFfi;
use freertos_rust::CurrentTask;
use freertos_rust::Duration;
use freertos_rust::FreeRtosError;
use freertos_rust::FreeRtosSchedulerState;
use freertos_rust::FreeRtosSystemState;
use freertos_rust::FreeRtosTaskState;
use freertos_rust::FreeRtosTaskStatus;
use freertos_rust::FreeRtosUtils;
use freertos_rust::InterruptContext;
use freertos_rust::Kernel;
use freertos_rust::KernelConfig;
use freertos_rust::Task;
use freertos_rust::TaskNotification;
use freertos_rust::TaskPriority;

fn kernel(heap_size: usize) -> Kernel {
    Kernel::new(KernelConfig { tick_period_ms: 1, max_wait: 0xffff_ffff, heap_size, word_bytes: 4 })
}

fn running(k: &mut Kernel, name: &str) -> Task {
    let task = Task::new().name(name).stack_size(128).start(k).unwrap();
    k.start();
    assert!(k.switch_to(task.raw_handle()));
    task
}

#[test]
fn builder_defaults() {
    let mut k = kernel(65536);
    let task = Task::new().start(&mut k).unwrap();
    assert_eq!(task.raw_handle(), 1);
    assert_eq!(task.get_name(&k), Ok(String::from("rust_task")));
    assert_eq!(task.get_stack_high_water_mark(&k), 1024);
    assert_eq!(FreeRtosUtils::get_number_of_tasks(&k), 1);
    assert_eq!(k.heap_free(), 65536 - 1024 * 4 - 64);
    let state = FreeRtosUtils::get_all_tasks(&k, None);
    assert_eq!(state.tasks.len(), 1);
    assert_eq!(state.tasks[0].current_priority.0, 1);
    assert_eq!(state.tasks[0].base_priority.0, 1);
}

#[test]
fn builder_sets_name_stack_and_priority() {
    let mut k = kernel(65536);
    let first = Task::new().start(&mut k).unwrap();
    let task = Task::new().name("hello").stack_size(128).priority(TaskPriority(2)).start(&mut k).unwrap();
    assert_eq!(first.raw_handle(), 1);
    assert_eq!(task.raw_handle(), 2);
    assert_eq!(task.get_name(&k), Ok(String::from("hello")));
    assert_eq!(task.get_stack_high_water_mark(&k), 128);
    let state = FreeRtosUtils::get_all_tasks(&k, None);
    assert_eq!(state.tasks[1].name, "hello");
    assert_eq!(state.tasks[1].current_priority.0, 2);
    assert_eq!(state.tasks[1].stack_high_water_mark, 128);
    assert_eq!(state.tasks[1].task.raw_handle(), 2);
    assert_eq!(TaskPriority(2).to_freertos(), 2);
}

#[test]
fn spawn_without_memory_fails() {
    let mut k = kernel(128 * 4 + 63);
    let r = Task::new().stack_size(128).start(&mut k);
    assert_eq!(r.err(), Some(FreeRtosError::OutOfMemory));
    assert_eq!(FreeRtosUtils::get_number_of_tasks(&k), 0);
    assert_eq!(k.heap_free(), 128 * 4 + 63);
    let mut enough = kernel(128 * 4 + 64);
    assert!(Task::new().stack_size(128).start(&mut enough).is_ok());
    assert_eq!(enough.heap_free(), 0);
}

#[test]
fn spawn_result_follows_the_status() {
    assert_eq!(Task::spawn_result(0, 7).unwrap().raw_handle(), 7);
    assert_eq!(Task::spawn_result(1, 7).err(), Some(FreeRtosError::OutOfMemory));
    assert_eq!(Task::spawn_result(u32::MAX, 0).err(), Some(FreeRtosError::OutOfMemory));
}

#[test]
fn kernel_keeps_fifteen_bytes_of_a_name() {
    let mut k = kernel(65536);
    let task = Task::new().name("a_very_long_task_name").stack_size(16).start(&mut k).unwrap();
    assert_eq!(task.get_name(&k), Ok(String::from("a_very_long_tas")));
}

#[test]
fn name_cut_inside_a_character_is_no_string() {
    let mut k = kernel(65536);
    let task = Task::new().name("aaaaaaaaaaaaaa\u{e9}").stack_size(16).start(&mut k).unwrap();
    assert_eq!(task.get_name(&k), Err(()));
    let state = FreeRtosUtils::get_all_tasks(&k, None);
    assert_eq!(state.tasks[0].name, "?");
}

#[test]
fn name_ends_at_a_zero_byte() {
    let mut k = kernel(65536);
    let task = Task::new().name("ab\0cd").stack_size(16).start(&mut k).unwrap();
    assert_eq!(task.get_name(&k), Ok(String::from("ab")));
}

#[test]
fn name_of_any_length_keeps_its_first_fifteen_bytes() {
    let mut k = kernel(65536);
    for len in [15usize, 16, 255, 256, 259, 1000] {
        let long = "b".repeat(len);
        let task = Task::new().name(&long).stack_size(16).start(&mut k).unwrap();
        assert_eq!(task.get_name(&k), Ok("b".repeat(15)));
    }
    let short = Task::new().name("").stack_size(16).start(&mut k).unwrap();
    assert_eq!(short.get_name(&k), Ok(String::new()));
}

#[test]
fn task_from_its_handle() {
    let mut k = kernel(65536);
    let task = Task::new().name("one").stack_size(16).start(&mut k).unwrap();
    let same = Task::from_raw_handle(task.raw_handle());
    assert_eq!(same.raw_handle(), 1);
    assert_eq!(same.get_name(&k), Ok(String::from("one")));
}

#[test]
fn running_task_suspends_itself() {
    let mut k = kernel(65536);
    let a = Task::new().name("a").stack_size(16).start(&mut k).unwrap();
    let b = Task::new().name("b").stack_size(16).start(&mut k).unwrap();
    CurrentTask::suspend(&mut k);
    assert!(matches!(FreeRtosUtils::get_all_tasks(&k, None).tasks[0].task_state, FreeRtosTaskState::Ready));
    k.start();
    assert!(k.switch_to(a.raw_handle()));
    CurrentTask::suspend(&mut k);
    assert_eq!(Task::current(&k).err(), Some(FreeRtosError::TaskNotFound));
    let state = FreeRtosUtils::get_all_tasks(&k, None);
    assert!(matches!(state.tasks[0].task_state, FreeRtosTaskState::Suspended));
    assert!(matches!(state.tasks[1].task_state, FreeRtosTaskState::Ready));
    assert!(!k.switch_to(a.raw_handle()));
    assert!(k.switch_to(b.raw_handle()));
    k.resume(b.raw_handle());
    k.resume(0);
    k.resume(9);
    assert!(!k.switch_to(a.raw_handle()));
    k.resume(a.raw_handle());
    assert!(matches!(FreeRtosUtils::get_all_tasks(&k, None).tasks[0].task_state, FreeRtosTaskState::Ready));
    assert!(k.switch_to(a.raw_handle()));
}

#[test]
fn snapshot_with_more_room_than_can_be_counted() {
    let mut k = kernel(65536);
    Task::new().name("a").stack_size(16).start(&mut k).unwrap();
    assert_eq!(FreeRtosUtils::get_all_tasks(&k, Some(usize::MAX)).tasks.len(), 1);
}

#[test]
fn current_task() {
    let mut k = kernel(65536);
    assert_eq!(Task::current(&k).err(), Some(FreeRtosError::TaskNotFound));
    assert_eq!(CurrentTask::get_stack_high_water_mark(&k), 0);
    let task = running(&mut k, "t");
    assert_eq!(Task::current(&k).unwrap().raw_handle(), task.raw_handle());
    assert_eq!(CurrentTask::get_stack_high_water_mark(&k), 128);
    assert_eq!(task.clone().raw_handle(), task.raw_handle());
}

#[test]
fn task_number() {
    let mut k = kernel(65536);
    let mut task = Task::new().stack_size(16).start(&mut k).unwrap();
    assert_eq!(task.get_id(&k), Err(FreeRtosError::TaskNotFound));
    task.set_id(&mut k, 7);
    assert_eq!(task.get_id(&k), Ok(7));
    task.set_id(&mut k, 0xffff_ffff);
    assert_eq!(task.get_id(&k), Ok(-1));
}

#[test]
fn notification_codes() {
    assert_eq!(TaskNotification::NoAction.to_freertos(), (0, 0));
    assert_eq!(TaskNotification::SetBits(5).to_freertos(), (5, 1));
    assert_eq!(TaskNotification::Increment.to_freertos(), (0, 2));
    assert_eq!(TaskNotification::OverwriteValue(6).to_freertos(), (6, 3));
    assert_eq!(TaskNotification::SetValue(7).to_freertos(), (7, 4));
}

#[test]
fn notification_is_one_word_that_merges() {
    let mut k = kernel(65536);
    let task = running(&mut k, "t");
    task.notify(&mut k, TaskNotification::SetBits(0b0101));
    task.notify(&mut k, TaskNotification::SetBits(0b0011));
    assert_eq!(task.wait_for_notification(&mut k, 0, 0, Duration::zero()), Ok(0b0111));
    assert_eq!(task.wait_for_notification(&mut k, 0, 0, Duration::zero()), Err(FreeRtosError::Timeout));
    task.notify(&mut k, TaskNotification::Increment);
    task.notify(&mut k, TaskNotification::Increment);
    assert_eq!(task.wait_for_notification(&mut k, 0, 0xffff_ffff, Duration::zero()), Ok(0b1001));
    task.notify(&mut k, TaskNotification::NoAction);
    assert_eq!(task.wait_for_notification(&mut k, 0, 0, Duration::zero()), Ok(0));
    task.set_notification_value(&mut k, 1234);
    task.notify(&mut k, TaskNotification::SetValue(99));
    assert_eq!(task.wait_for_notification(&mut k, 0, 0, Duration::zero()), Ok(1234));
    task.notify(&mut k, TaskNotification::SetValue(99));
    assert_eq!(task.wait_for_notification(&mut k, 0, 0, Duration::zero()), Ok(99));
}

#[test]
fn notification_wait_clears_bits() {
    let mut k = kernel(65536);
    let task = running(&mut k, "t");
    task.notify(&mut k, TaskNotification::OverwriteValue(0xff));
    assert_eq!(task.wait_for_notification(&mut k, 0x0f, 0xf0, Duration::zero()), Ok(0xff));
    task.notify(&mut k, TaskNotification::NoAction);
    assert_eq!(task.wait_for_notification(&mut k, 0, 0, Duration::zero()), Ok(0x0f));
    assert_eq!(
        task.wait_for_notification(&mut k, 0x03, 0, Duration::from_ticks(9)),
        Err(FreeRtosError::Timeout)
    );
    assert_eq!(FreeRtosUtils::get_tick_count(&k), 9);
    task.notify(&mut k, TaskNotification::NoAction);
    assert_eq!(task.wait_for_notification(&mut k, 0, 0, Duration::zero()), Ok(0x0c));
}

#[test]
fn notification_from_interrupt() {
    let mut k = kernel(65536);
    let task = running(&mut k, "t");
    let mut context = InterruptContext::new();
    assert_eq!(task.notify_from_isr(&mut k, &mut context, TaskNotification::SetValue(1)), Ok(()));
    assert_eq!(
        task.notify_from_isr(&mut k, &mut context, TaskNotification::SetValue(2)),
        Err(FreeRtosError::QueueFull)
    );
    assert_eq!(context.higher_priority_task_woken(), 0);
    assert_eq!(task.wait_for_notification(&mut k, 0, 0, Duration::zero()), Ok(1));
}

#[test]
fn notification_taken_as_a_counter() {
    let mut k = kernel(65536);
    let task = running(&mut k, "t");
    task.notify(&mut k, TaskNotification::Increment);
    task.notify(&mut k, TaskNotification::Increment);
    task.notify(&mut k, TaskNotification::Increment);
    assert_eq!(CurrentTask::take_notification(&mut k, false, Duration::zero()), 3);
    assert_eq!(CurrentTask::take_notification(&mut k, false, Duration::zero()), 2);
    assert_eq!(CurrentTask::take_notification(&mut k, true, Duration::zero()), 1);
    assert_eq!(CurrentTask::take_notification(&mut k, true, Duration::from_ticks(4)), 0);
    assert_eq!(FreeRtosUtils::get_tick_count(&k), 4);
}

#[test]
fn waiting_without_a_task_runs_out() {
    let mut k = kernel(65536);
    let task = Task::new().stack_size(16).start(&mut k).unwrap();
    task.notify(&mut k, TaskNotification::Increment);
    assert_eq!(
        task.wait_for_notification(&mut k, 0, 0, Duration::from_ticks(3)),
        Err(FreeRtosError::Timeout)
    );
    assert_eq!(CurrentTask::take_notification(&mut k, true, Duration::from_ticks(2)), 0);
    assert_eq!(FreeRtosUtils::get_tick_count(&k), 5);
}

#[test]
fn scheduler_state_codes() {
    assert_eq!(FreeRtosUtils::scheduler_state_of(0), Some(FreeRtosSchedulerState::Suspended));
    assert_eq!(FreeRtosUtils::scheduler_state_of(1), Some(FreeRtosSchedulerState::NotStarted));
    assert_eq!(FreeRtosUtils::scheduler_state_of(2), Some(FreeRtosSchedulerState::Running));
    assert_eq!(FreeRtosUtils::scheduler_state_of(3), None);
    assert_eq!(FreeRtosUtils::scheduler_state_of(-1), None);
}

#[test]
fn scheduler_states() {
    let mut k = kernel(65536);
    assert_eq!(FreeRtosUtils::scheduler_state(&k), FreeRtosSchedulerState::NotStarted);
    k.start();
    assert_eq!(FreeRtosUtils::scheduler_state(&k), FreeRtosSchedulerState::Running);
    Task::suspend_all(&mut k);
    Task::suspend_all(&mut k);
    assert_eq!(FreeRtosUtils::scheduler_state(&k), FreeRtosSchedulerState::Suspended);
    Task::resume_all(&mut k);
    assert_eq!(FreeRtosUtils::scheduler_state(&k), FreeRtosSchedulerState::Suspended);
    Task::resume_all(&mut k);
    assert_eq!(FreeRtosUtils::scheduler_state(&k), FreeRtosSchedulerState::Running);
    Task::resume_all(&mut k);
    assert_eq!(FreeRtosUtils::scheduler_state(&k), FreeRtosSchedulerState::Running);
}

#[test]
fn scheduler_switches_between_ready_tasks() {
    let mut k = kernel(65536);
    let a = Task::new().name("a").stack_size(16).start(&mut k).unwrap();
    let b = Task::new().name("b").stack_size(16).start(&mut k).unwrap();
    assert!(!k.switch_to(a.raw_handle()));
    k.start();
    assert!(!k.switch_to(0));
    assert!(!k.switch_to(3));
    assert!(k.switch_to(a.raw_handle()));
    let state = FreeRtosUtils::get_all_tasks(&k, None);
    assert!(matches!(state.tasks[0].task_state, FreeRtosTaskState::Running));
    assert!(matches!(state.tasks[1].task_state, FreeRtosTaskState::Ready));
    assert!(k.switch_to(b.raw_handle()));
    assert!(k.switch_to(b.raw_handle()));
    let state = FreeRtosUtils::get_all_tasks(&k, None);
    assert!(matches!(state.tasks[0].task_state, FreeRtosTaskState::Ready));
    assert!(matches!(state.tasks[1].task_state, FreeRtosTaskState::Running));
    Task::suspend_all(&mut k);
    assert!(!k.switch_to(a.raw_handle()));
    Task::resume_all(&mut k);
    assert!(k.switch_to(a.raw_handle()));
}

#[test]
fn snapshot_needs_room_for_all_tasks() {
    let mut k = kernel(65536);
    Task::new().name("a").stack_size(16).start(&mut k).unwrap();
    Task::new().name("b").stack_size(16).start(&mut k).unwrap();
    k.run_for(10);
    assert_eq!(FreeRtosUtils::get_all_tasks(&k, Some(1)).tasks.len(), 0);
    assert_eq!(FreeRtosUtils::get_all_tasks(&k, Some(1)).total_run_time, 0);
    assert_eq!(FreeRtosUtils::get_all_tasks(&k, Some(2)).tasks.len(), 2);
    assert_eq!(FreeRtosUtils::get_all_tasks(&k, Some(5)).tasks.len(), 2);
    assert_eq!(FreeRtosUtils::get_all_tasks(&k, Some(5)).total_run_time, 10);
    assert_eq!(FreeRtosUtils::get_all_tasks(&k, None).tasks.len(), 2);
}

#[test]
fn run_time_is_counted_for_the_running_task() {
    let mut k = kernel(65536);
    let a = Task::new().name("a").stack_size(16).start(&mut k).unwrap();
    let b = Task::new().name("b").stack_size(16).start(&mut k).unwrap();
    k.start();
    assert!(k.switch_to(a.raw_handle()));
    k.run_for(30);
    assert!(k.switch_to(b.raw_handle()));
    k.run_for(10);
    CurrentTask::delay(&mut k, Duration::from_ticks(60));
    let state = FreeRtosUtils::get_all_tasks(&k, None);
    assert_eq!(state.total_run_time, 100);
    assert_eq!(state.tasks[0].run_time_counter, 30);
    assert_eq!(state.tasks[1].run_time_counter, 10);
    assert_eq!(FreeRtosUtils::get_tick_count(&k), 100);
}

fn status(number: u32, name: &str, state: FreeRtosTaskState, priority: u8, stack: u16, run: u32) -> FreeRtosTaskStatus {
    FreeRtosTaskStatus::from_ffi(&FreeRtosTaskStatusFfi {
        handle: number as usize,
        task_name: name.as_bytes().to_vec(),
        task_number: number,
        task_state: state,
        current_priority: priority as u32,
        base_priority: priority as u32,
        run_time_counter: run,
        stack_high_water_mark: stack,
    })
}

fn expected_row(id: &str, name: &str, state: &str, priority: &str, stack: &str, cpu_abs: &str, cpu_rel: &str) -> String {
    format!(
        "{id: <6} | {name: <16} | {state: <9} | {priority: <8} | {stack: >10} | {cpu_abs: >10} | {cpu_rel: >4}\r\n",
        id = id,
        name = name,
        state = state,
        priority = priority,
        stack = stack,
        cpu_abs = cpu_abs,
        cpu_rel = cpu_rel
    )
}

#[test]
fn task_table_as_text() {
    let state = FreeRtosSystemState {
        tasks: vec![
            status(1, "idle", FreeRtosTaskState::Ready, 0, 128, 150),
            status(42, "a_name_of_more_than_16", FreeRtosTaskState::Running, 255, 65535, 1),
            status(3, "", FreeRtosTaskState::Blocked, 7, 0, 0),
            status(4, "s", FreeRtosTaskState::Suspended, 7, 9, 200),
            status(4000000000, "d", FreeRtosTaskState::Deleted, 7, 9, 201),
        ],
        total_run_time: 200,
    };
    let mut expected = String::from("FreeRTOS tasks\r\n");
    expected += &expected_row("ID", "Name", "State", "Priority", "Stack left", "CPU", "%");
    expected += &expected_row("1", "idle", "Ready", "0", "128", "150", " 75%");
    expected += &expected_row("42", "a_name_of_more_than_16", "Running", "255", "65535", "1", " <1%");
    expected += &expected_row("3", "", "Blocked", "7", "0", "0", "  0%");
    expected += &expected_row("4", "s", "Suspended", "7", "9", "200", "100%");
    expected += &expected_row("4000000000", "d", "Deleted", "7", "9", "201", "-");
    expected += "Total run time: 200\r\n";
    assert_eq!(state.to_string(), expected);
    assert!(state.to_string().starts_with(
        "FreeRTOS tasks\r\nID     | Name             | State     | Priority | Stack left |        CPU |    %\r\n1      | idle             | Ready     | 0        |        128 |        150 |  75%\r\n"
    ));
}

#[test]
fn task_table_without_run_times() {
    let state = FreeRtosSystemState {
        tasks: vec![status(1, "idle", FreeRtosTaskState::Ready, 0, 128, 0)],
        total_run_time: 0,
    };
    let mut expected = String::from("FreeRTOS tasks\r\n");
    expected += &expected_row("ID", "Name", "State", "Priority", "Stack left", "CPU", "%");
    expected += &expected_row("1", "idle", "Ready", "0", "128", "0", "-");
    assert_eq!(state.to_string(), expected);
    let empty = FreeRtosSystemState { tasks: vec![], total_run_time: 0 };
    assert_eq!(
        empty.to_string(),
        "FreeRTOS tasks\r\nID     | Name             | State     | Priority | Stack left |        CPU |    %\r\n"
    );
}

#[test]
fn task_table_of_a_kernel() {
    let mut k = kernel(65536);
    let a = Task::new().name("worker").stack_size(256).priority(TaskPriority(3)).start(&mut k).unwrap();
    k.start();
    assert!(k.switch_to(a.raw_handle()));
    k.run_for(5);
    let text = FreeRtosUtils::get_all_tasks(&k, None).to_string();
    let mut expected = String::from("FreeRTOS tasks\r\n");
    expected += &expected_row("ID", "Name", "State", "Priority", "Stack left", "CPU", "%");
    expected += &expected_row("0", "worker", "Running", "3", "256", "5", "100%");
    expected += "Total run time: 5\r\n";
    assert_eq!(text, expected);
}

#[test]
fn state_names() {
    assert_eq!(FreeRtosTaskState::Running.name(), "Running");
    assert_eq!(FreeRtosTaskState::Ready.name(), "Ready");
    assert_eq!(FreeRtosTaskState::Blocked.name(), "Blocked");
    assert_eq!(FreeRtosTaskState::Suspended.name(), "Suspended");
    assert_eq!(FreeRtosTaskState::Deleted.name(), "Deleted");
}
