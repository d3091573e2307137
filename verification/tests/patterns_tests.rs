use freertos_rust::patterns::compute_task::ComputeTaskBuilder;
use freertos_rust::patterns::processor::InputMessage;
use freertos_rust::patterns::processor::Processor;
use freertos_rust::patterns::processor::ReplyableMessage;
use freertos_rust::patterns::pub_sub::QueuePublisher;
use freertos_rust::Duration;
use freertos_rust::FreeRtosError;
use freertos_rust::FreeRtosUtils;
use freertos_rust::InterruptContext;
use freertos_rust::Kernel;
use freertos_rust::KernelConfig;
use freertos_rust::Task;

fn kernel(heap_size: usize) -> Kernel {
    Kernel::new(KernelConfig { tick_period_ms: 1, max_wait: 100, heap_size, word_bytes: 4 })
}

#[test]
fn input_messages() {
    let plain = InputMessage::request(5u8);
    assert_eq!(plain.get_val(), 5);
    assert_eq!(plain.reply_to_client_id(), None);
    let asking = InputMessage::request_with_reply(6u8, 3);
    assert_eq!(asking.get_val(), 6);
    assert_eq!(asking.reply_to_client_id(), Some(3));
}

#[test]
fn request_and_reply() {
    let mut k = kernel(65536);
    let mut processor: Processor<InputMessage<u32>, u64> = Processor::new(&mut k, 4).unwrap();
    let client = processor.new_client_with_reply(&mut k, 2, Duration::zero()).unwrap();
    let other = processor.new_client_with_reply(&mut k, 2, Duration::zero()).unwrap();
    assert_eq!(
        client.call_val(&mut processor, &mut k, 21, Duration::from_ticks(3)),
        Err(FreeRtosError::QueueReceiveTimeout)
    );
    assert_eq!(FreeRtosUtils::get_tick_count(&k), 3);
    let message = processor.get_receive_queue().unwrap().receive(&mut k, Duration::zero()).unwrap();
    assert_eq!(message.get_val(), 21);
    assert_eq!(message.reply_to_client_id(), Some(1));
    assert_eq!(processor.reply_val(&mut k, message, 42, Duration::zero()), Ok(true));
    assert_eq!(other.receive(&mut processor, &mut k, Duration::zero()), Err(FreeRtosError::QueueReceiveTimeout));
    assert_eq!(client.receive(&mut processor, &mut k, Duration::zero()), Ok(42));
    assert_eq!(client.receive(&mut processor, &mut k, Duration::zero()), Err(FreeRtosError::QueueReceiveTimeout));
}

#[test]
fn reply_that_waits_is_given_by_a_call() {
    let mut k = kernel(65536);
    let mut processor: Processor<InputMessage<u32>, u64> = Processor::new(&mut k, 4).unwrap();
    let client = processor.new_client_with_reply(&mut k, 2, Duration::zero()).unwrap();
    assert_eq!(
        processor.reply(&mut k, InputMessage::request_with_reply(0, 1), 7, Duration::zero()),
        Ok(true)
    );
    assert_eq!(client.call_val(&mut processor, &mut k, 1, Duration::zero()), Ok(7));
    assert_eq!(processor.get_receive_queue().unwrap().len(), 1);
}

#[test]
fn reply_finds_no_client() {
    let mut k = kernel(65536);
    let mut processor: Processor<InputMessage<u32>, u64> = Processor::new(&mut k, 4).unwrap();
    let client = processor.new_client_with_reply(&mut k, 1, Duration::zero()).unwrap();
    assert_eq!(processor.reply(&mut k, InputMessage::request(1), 7, Duration::zero()), Ok(false));
    assert_eq!(
        processor.reply(&mut k, InputMessage::request_with_reply(1, 9), 7, Duration::zero()),
        Ok(false)
    );
    let free = k.heap_free();
    assert!(client.clone().disconnect(&mut processor, &mut k));
    assert_eq!(k.heap_free(), free + 64 + 8);
    assert!(!client.disconnect(&mut processor, &mut k));
    assert_eq!(
        processor.reply(&mut k, InputMessage::request_with_reply(1, 1), 7, Duration::zero()),
        Ok(false)
    );
}

#[test]
fn reply_to_a_full_client_runs_out() {
    let mut k = kernel(65536);
    let mut processor: Processor<InputMessage<u32>, u64> = Processor::new(&mut k, 4).unwrap();
    let client = processor.new_client_with_reply(&mut k, 1, Duration::zero()).unwrap();
    let message = InputMessage::request_with_reply(1, 1);
    assert_eq!(processor.reply(&mut k, message, 7, Duration::from_ticks(2)), Ok(true));
    assert_eq!(
        processor.reply(&mut k, message, 8, Duration::from_ticks(2)),
        Err(FreeRtosError::QueueSendTimeout)
    );
    assert_eq!(FreeRtosUtils::get_tick_count(&k), 2);
    assert_eq!(client.receive(&mut processor, &mut k, Duration::zero()), Ok(7));
}

#[test]
fn clients_get_rising_numbers() {
    let mut k = kernel(65536);
    let mut processor: Processor<InputMessage<u8>, u8> = Processor::new(&mut k, 4).unwrap();
    let first = processor.new_client_with_reply(&mut k, 1, Duration::zero()).unwrap();
    let second = processor.new_client_with_reply(&mut k, 1, Duration::zero()).unwrap();
    first.call_val(&mut processor, &mut k, 1, Duration::zero()).unwrap_err();
    second.call_val(&mut processor, &mut k, 2, Duration::zero()).unwrap_err();
    let queue = processor.get_receive_queue().unwrap();
    assert_eq!(queue.receive(&mut k, Duration::zero()).unwrap().reply_to_client_id(), Some(1));
    assert_eq!(queue.receive(&mut k, Duration::zero()).unwrap().reply_to_client_id(), Some(2));
}

#[test]
fn client_queue_of_no_size_is_refused() {
    let mut k = kernel(65536);
    let mut processor: Processor<InputMessage<u8>, u8> = Processor::new(&mut k, 4).unwrap();
    assert_eq!(
        processor.new_client_with_reply(&mut k, 0, Duration::zero()).err(),
        Some(FreeRtosError::InvalidQueueSize)
    );
    let request = std::mem::size_of::<InputMessage<u8>>();
    let mut tight = kernel(64 + 64 + request + 64 + 7);
    let mut processor: Processor<InputMessage<u8>, u64> = Processor::new(&mut tight, 1).unwrap();
    assert_eq!(
        processor.new_client_with_reply(&mut tight, 1, Duration::zero()).err(),
        Some(FreeRtosError::OutOfMemory)
    );
}

#[test]
fn processor_without_memory() {
    let mut none = kernel(63);
    assert_eq!(Processor::<InputMessage<u8>, u8>::new(&mut none, 1).err(), Some(FreeRtosError::OutOfMemory));
    let mut some = kernel(64 + 64);
    assert_eq!(Processor::<InputMessage<u8>, u8>::new(&mut some, 1).err(), Some(FreeRtosError::OutOfMemory));
    assert_eq!(some.heap_free(), 64 + 64);
    assert_eq!(Processor::<InputMessage<u8>, u8>::new(&mut some, 0).err(), Some(FreeRtosError::OutOfMemory));
    assert_eq!(some.heap_free(), 64 + 64);
}

#[test]
fn client_without_replies_sends_values() {
    let mut k = kernel(65536);
    let mut processor: Processor<InputMessage<u32>, u8> = Processor::new(&mut k, 2).unwrap();
    let client = processor.new_client().unwrap();
    assert_eq!(client.send_val(&mut processor, &mut k, 1, Duration::zero()), Ok(()));
    let mut context = InterruptContext::new();
    assert_eq!(client.send_val_from_isr(&mut processor, &mut context, 2), Ok(()));
    assert_eq!(
        client.send_val_from_isr(&mut processor, &mut context, 3),
        Err(FreeRtosError::QueueFull)
    );
    assert_eq!(
        client.send(&mut processor, &mut k, InputMessage::request(3), Duration::from_ticks(4)),
        Err(FreeRtosError::QueueSendTimeout)
    );
    assert_eq!(FreeRtosUtils::get_tick_count(&k), 4);
    let queue = processor.get_receive_queue().unwrap();
    assert_eq!(queue.receive(&mut k, Duration::zero()).unwrap().get_val(), 1);
    assert_eq!(queue.receive(&mut k, Duration::zero()).unwrap().get_val(), 2);
}

#[test]
fn client_of_a_processor_that_has_shut_down() {
    let mut k = kernel(65536);
    let mut processor: Processor<InputMessage<u32>, u8> = Processor::new(&mut k, 2).unwrap();
    let client = processor.new_client().unwrap();
    let with_replies = processor.new_client_with_reply(&mut k, 1, Duration::zero()).unwrap();
    let mut another: Processor<InputMessage<u32>, u8> = Processor::new(&mut k, 2).unwrap();
    assert_eq!(
        client.send_val(&mut another, &mut k, 1, Duration::zero()),
        Err(FreeRtosError::ProcessorHasShutDown)
    );
    processor.shut_down(&mut k);
    assert!(processor.get_receive_queue().is_none());
    assert_eq!(
        client.send_val(&mut processor, &mut k, 1, Duration::zero()),
        Err(FreeRtosError::ProcessorHasShutDown)
    );
    let mut context = InterruptContext::new();
    assert_eq!(
        client.send_from_isr(&mut processor, &mut context, InputMessage::request(1)),
        Err(FreeRtosError::ProcessorHasShutDown)
    );
    assert_eq!(
        with_replies.call_val(&mut processor, &mut k, 1, Duration::zero()),
        Err(FreeRtosError::ProcessorHasShutDown)
    );
    assert_eq!(
        with_replies.send_val(&mut processor, &mut k, 1, Duration::zero()),
        Err(FreeRtosError::ProcessorHasShutDown)
    );
    let late = processor.new_client().unwrap();
    assert_eq!(
        late.send_val(&mut another, &mut k, 1, Duration::zero()),
        Err(FreeRtosError::ProcessorHasShutDown)
    );
}

#[test]
fn published_item_reaches_every_subscriber_with_room() {
    let mut k = kernel(65536);
    let mut publisher: QueuePublisher<u32> = QueuePublisher::new(&mut k).unwrap();
    assert_eq!(publisher.send(&mut k, 1, Duration::zero()), 0);
    let small = publisher.subscribe(&mut k, 1, Duration::zero()).unwrap();
    let large = publisher.subscribe(&mut k, 3, Duration::zero()).unwrap();
    assert_eq!(publisher.send(&mut k, 10, Duration::from_ticks(5)), 2);
    assert_eq!(FreeRtosUtils::get_tick_count(&k), 0);
    assert_eq!(publisher.send(&mut k, 20, Duration::from_ticks(5)), 1);
    assert_eq!(FreeRtosUtils::get_tick_count(&k), 5);
    assert_eq!(small.receive(&mut publisher, &mut k, Duration::zero()), Ok(10));
    assert_eq!(small.receive(&mut publisher, &mut k, Duration::zero()), Err(FreeRtosError::QueueReceiveTimeout));
    assert_eq!(large.receive(&mut publisher, &mut k, Duration::zero()), Ok(10));
    assert_eq!(large.receive(&mut publisher, &mut k, Duration::zero()), Ok(20));
    assert_eq!(large.receive(&mut publisher, &mut k, Duration::from_ticks(1)), Err(FreeRtosError::QueueReceiveTimeout));
    assert_eq!(FreeRtosUtils::get_tick_count(&k), 6);
    assert!(small.unsubscribe(&mut publisher, &mut k));
    assert_eq!(publisher.send(&mut k, 30, Duration::zero()), 1);
    assert_eq!(large.receive(&mut publisher, &mut k, Duration::zero()), Ok(30));
    assert!(large.unsubscribe(&mut publisher, &mut k));
    assert_eq!(publisher.send(&mut k, 40, Duration::zero()), 0);
    publisher.delete(&mut k);
    assert_eq!(k.heap_free(), 65536);
}

#[test]
fn deleting_a_publisher_deletes_what_is_left_of_it() {
    let mut k = kernel(65536);
    let mut publisher: QueuePublisher<u64> = QueuePublisher::new(&mut k).unwrap();
    publisher.subscribe(&mut k, 2, Duration::zero()).unwrap();
    publisher.subscribe(&mut k, 3, Duration::zero()).unwrap();
    assert_eq!(k.heap_free(), 65536 - 64 - (64 + 16) - (64 + 24));
    publisher.delete(&mut k);
    assert_eq!(k.heap_free(), 65536);
}

#[test]
fn deleting_a_processor_deletes_what_is_left_of_it() {
    let mut k = kernel(65536);
    let mut processor: Processor<InputMessage<u32>, u64> = Processor::new(&mut k, 4).unwrap();
    processor.new_client_with_reply(&mut k, 2, Duration::zero()).unwrap();
    let gone = processor.new_client_with_reply(&mut k, 2, Duration::zero()).unwrap();
    assert!(gone.disconnect(&mut processor, &mut k));
    assert!(k.heap_free() < 65536);
    processor.delete(&mut k);
    assert_eq!(k.heap_free(), 65536);
    let mut shut: Processor<InputMessage<u32>, u64> = Processor::new(&mut k, 4).unwrap();
    shut.shut_down(&mut k);
    shut.delete(&mut k);
    assert_eq!(k.heap_free(), 65536);
}

#[test]
fn subscription_without_memory() {
    let mut k = kernel(64 + 64 + 3);
    let mut publisher: QueuePublisher<u32> = QueuePublisher::new(&mut k).unwrap();
    assert_eq!(publisher.subscribe(&mut k, 1, Duration::zero()).err(), Some(FreeRtosError::OutOfMemory));
    assert_eq!(publisher.subscribe(&mut k, 0, Duration::zero()).err(), Some(FreeRtosError::OutOfMemory));
    let mut none = kernel(0);
    assert_eq!(QueuePublisher::<u32>::new(&mut none).err(), Some(FreeRtosError::OutOfMemory));
}

#[test]
fn compute_task_hands_its_value_back() {
    let mut k = kernel(65536);
    let mut task = Task::new().name("sum").stack_size(64).compute(&mut k, || 40 + 2).unwrap();
    assert_eq!(task.get_task().raw_handle(), 1);
    assert_eq!(task.wait_for_result(&mut k, Duration::zero()), Ok(()));
    assert_eq!(task.wait_for_result(&mut k, Duration::zero()), Ok(()));
    assert_eq!(task.into_result(&mut k, Duration::zero()), Ok(42));
    assert_eq!(k.heap_free(), 65536 - 64 * 4 - 64);
    let other = Task::new().stack_size(64).compute(&mut k, || String::from("done")).unwrap();
    assert_eq!(other.into_result(&mut k, Duration::zero()), Ok(String::from("done")));
}

#[test]
fn compute_task_with_just_enough_memory() {
    let mut k = kernel(64 + 64 + 64 * 4 + 64);
    let task = Task::new().stack_size(64).compute(&mut k, || 7u8).unwrap();
    assert_eq!(k.heap_free(), 0);
    assert_eq!(task.into_result(&mut k, Duration::zero()), Ok(7));
    assert_eq!(k.heap_free(), 64 + 64);
}

#[test]
fn compute_task_without_memory_does_not_compute() {
    for heap in [0usize, 63, 64, 64 + 63, 64 + 64, 64 + 64 + 64 * 4 + 63] {
        let mut k = kernel(heap);
        let mut called = false;
        let r = Task::new().stack_size(64).compute(&mut k, || {
            called = true;
            1u8
        });
        assert_eq!(r.err(), Some(FreeRtosError::OutOfMemory));
        assert!(!called);
        assert_eq!(k.heap_free(), heap);
    }
}

#[test]
fn client_reaches_the_queue_of_its_replies() {
    let mut k = kernel(65536);
    let mut processor: Processor<InputMessage<u32>, u64> = Processor::new(&mut k, 4).unwrap();
    let client = processor.new_client_with_reply(&mut k, 2, Duration::zero()).unwrap();
    assert_eq!(
        processor.reply(&mut k, InputMessage::request_with_reply(0, 1), 7, Duration::zero()),
        Ok(true)
    );
    {
        let queue = client.get_receive_queue(&mut processor).unwrap();
        assert_eq!(queue.len(), 1);
        assert_eq!(queue.receive(&mut k, Duration::zero()), Ok(7));
    }
    assert_eq!(client.receive(&mut processor, &mut k, Duration::zero()), Err(FreeRtosError::QueueReceiveTimeout));
    assert!(client.clone().disconnect(&mut processor, &mut k));
    assert!(client.get_receive_queue(&mut processor).is_none());
}
