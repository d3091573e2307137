use freertos_rust::base::status_to_result;
use freertos_rust::shim::freertos_rs_enter_critical;
use freertos_rust::shim::freertos_rs_exit_critical;
use freertos_rust::shim::freertos_rs_get_number_of_tasks;
use freertos_rust::shim::freertos_rs_get_portTICK_PERIOD_MS;
use freertos_rust::shim::freertos_rs_isr_yield;
use freertos_rust::shim::freertos_rs_max_wait;
use freertos_rust::shim::freertos_rs_sizeof;
use freertos_rust::shim::freertos_rs_task_notify;
use freertos_rust::shim::freertos_rs_task_notify_take;
use freertos_rust::shim::freertos_rs_task_notify_wait;
use freertos_rust::shim::freertos_rs_vTaskDelay;
use freertos_rust::shim::freertos_rs_vTaskDelayUntil;
use freertos_rust::shim::freertos_rs_xTaskGetTickCount;
use freertos_rust::shim_sanity_check;
use freertos_rust::str_from_c_string;
use freertos_rust::FreeRtosError;
use freertos_rust::Kernel;
use freertos_rust::KernelConfig;
use freertos_rust::Task;

fn kernel(word_bytes: u8) -> Kernel {
    Kernel::new(KernelConfig { tick_period_ms: 2, max_wait: 1000, heap_size: 65536, word_bytes })
}

#[test]
fn sizes_agree_with_a_kernel_for_this_machine() {
    let k = kernel(std::mem::size_of::<usize>() as u8);
    assert!(shim_sanity_check(&k).is_ok());
}

#[test]
fn sizes_disagree_with_a_kernel_for_another_machine() {
    let k = kernel(2);
    let e = shim_sanity_check(&k).unwrap_err();
    assert_eq!(e.id(), 0);
    assert_eq!(e.c_size(), 2);
    assert_eq!(e.rust_size(), std::mem::size_of::<usize>());
}

#[test]
fn sizes_disagree_on_the_first_type_that_differs() {
    let wrong = if std::mem::size_of::<usize>() == 8 { 4 } else { 8 };
    let e = shim_sanity_check(&kernel(wrong)).unwrap_err();
    assert_eq!((e.id(), e.c_size(), e.rust_size()), (0, wrong as usize, std::mem::size_of::<usize>()));
    let e = shim_sanity_check(&kernel(0)).unwrap_err();
    assert_eq!((e.id(), e.c_size()), (0, 0));
}

#[test]
fn kernel_sizes() {
    let k = kernel(4);
    for id in [0u8, 1, 20, 21, 22, 23, 24, 25] {
        assert_eq!(freertos_rs_sizeof(&k, id), 4);
    }
    assert_eq!(freertos_rs_sizeof(&k, 2), 1);
    assert_eq!(freertos_rs_sizeof(&k, 10), 4);
    assert_eq!(freertos_rs_sizeof(&k, 11), 4);
    assert_eq!(freertos_rs_sizeof(&k, 12), 4);
    assert_eq!(freertos_rs_sizeof(&k, 32), 4);
    assert_eq!(freertos_rs_sizeof(&k, 33), 2);
    assert_eq!(
        freertos_rs_sizeof(&k, 30) as usize,
        std::mem::size_of::<freertos_rust::base::FreeRtosTaskStatusFfi>()
    );
    assert_eq!(freertos_rs_sizeof(&k, 31) as usize, std::mem::size_of::<freertos_rust::FreeRtosTaskState>());
    assert_eq!(freertos_rs_sizeof(&k, 31), 1);
    assert_eq!(freertos_rs_sizeof(&k, 3), 0);
    assert_eq!(freertos_rs_sizeof(&k, 26), 0);
    assert_eq!(freertos_rs_sizeof(&kernel(8), 20), 8);
}

#[test]
fn string_from_a_terminated_buffer() {
    assert_eq!(str_from_c_string(b"hello\0world"), Ok(String::from("hello")));
    assert_eq!(str_from_c_string(b"hello"), Ok(String::from("hello")));
    assert_eq!(str_from_c_string(b"\0hello"), Ok(String::new()));
    assert_eq!(str_from_c_string(b""), Ok(String::new()));
    assert_eq!(str_from_c_string("gr\u{fc}n\0".as_bytes()), Ok(String::from("gr\u{fc}n")));
}

#[test]
fn string_from_bytes_that_are_not_utf8() {
    assert_eq!(str_from_c_string(&[0xff, 0x00]), Err(FreeRtosError::StringConversionError));
    assert_eq!(str_from_c_string(&[b'a', 0xc3]), Err(FreeRtosError::StringConversionError));
    assert_eq!(str_from_c_string(&[b'a', 0x00, 0xff]), Ok(String::from("a")));
}

#[test]
fn status_codes() {
    assert_eq!(status_to_result(0, FreeRtosError::Timeout), Ok(()));
    assert_eq!(status_to_result(1, FreeRtosError::Timeout), Err(FreeRtosError::Timeout));
    assert_eq!(status_to_result(-1, FreeRtosError::QueueFull), Err(FreeRtosError::QueueFull));
}

#[test]
fn kernel_entry_points() {
    let mut k = kernel(4);
    assert_eq!(freertos_rs_get_portTICK_PERIOD_MS(&k), 2);
    assert_eq!(freertos_rs_max_wait(&k), 1000);
    assert_eq!(freertos_rs_get_number_of_tasks(&k), 0);
    assert_eq!(freertos_rs_xTaskGetTickCount(&k), 0);
    freertos_rs_vTaskDelay(&mut k, u32::MAX);
    freertos_rs_vTaskDelay(&mut k, 3);
    assert_eq!(freertos_rs_xTaskGetTickCount(&k), 2);
    let mut woke: u32 = 2;
    freertos_rs_vTaskDelayUntil(&mut k, &mut woke, 10);
    assert_eq!(woke, 12);
    assert_eq!(freertos_rs_xTaskGetTickCount(&k), 12);
    freertos_rs_vTaskDelayUntil(&mut k, &mut woke, 0);
    assert_eq!(woke, 12);
    assert_eq!(freertos_rs_xTaskGetTickCount(&k), 12);
    freertos_rs_enter_critical(&mut k);
    assert_eq!(k.critical_depth(), 1);
    freertos_rs_exit_critical(&mut k);
    freertos_rs_exit_critical(&mut k);
    assert_eq!(k.critical_depth(), 0);
    assert!(!k.yield_pending());
    freertos_rs_isr_yield(&mut k);
    assert!(k.yield_pending());
}

#[test]
fn kernel_notifications() {
    let mut k = kernel(4);
    let task = Task::new().stack_size(16).start(&mut k).unwrap();
    k.start();
    assert!(k.switch_to(task.raw_handle()));
    assert_eq!(freertos_rs_task_notify(&mut k, 0, 1, 3), 1);
    assert_eq!(freertos_rs_task_notify(&mut k, 2, 1, 3), 1);
    assert_eq!(freertos_rs_task_notify(&mut k, 1, 1, 5), 1);
    assert_eq!(freertos_rs_task_notify(&mut k, 1, 6, 3), 0);
    assert_eq!(freertos_rs_task_notify(&mut k, 1, 7, 4), 1);
    let mut value: u32 = 0;
    assert_eq!(freertos_rs_task_notify_wait(&mut k, 0, 0b10, &mut value, 5), 0);
    assert_eq!(value, 6);
    assert_eq!(freertos_rs_task_notify_wait(&mut k, 0b100, 0, &mut value, 5), 1);
    assert_eq!(value, 0);
    assert_eq!(freertos_rs_xTaskGetTickCount(&k), 5);
    assert_eq!(freertos_rs_task_notify(&mut k, 1, u32::MAX, 3), 0);
    assert_eq!(freertos_rs_task_notify(&mut k, 1, 0, 2), 0);
    assert_eq!(freertos_rs_task_notify_take(&mut k, 0, 5), 0);
    assert_eq!(freertos_rs_xTaskGetTickCount(&k), 10);
    assert_eq!(freertos_rs_task_notify(&mut k, 1, 0, 2), 0);
    assert_eq!(freertos_rs_task_notify(&mut k, 1, 0, 2), 0);
    assert_eq!(freertos_rs_task_notify_take(&mut k, 0, 5), 2);
    assert_eq!(freertos_rs_task_notify_take(&mut k, 1, 5), 1);
    assert_eq!(freertos_rs_xTaskGetTickCount(&k), 10);
}
