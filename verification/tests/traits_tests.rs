use freertos_rust::patterns::processor::Processor;
use freertos_rust::patterns::processor::ReplyableMessage;
use freertos_rust::Duration;
use freertos_rust::DurationImpl;
use freertos_rust::DurationTicks;
use freertos_rust::FreeRtosError;
use freertos_rust::FreeRtosTimeUnits;
use freertos_rust::FreeRtosUtils;
use freertos_rust::Kernel;
use freertos_rust::KernelConfig;
use freertos_rust::Queue;

fn kernel() -> Kernel {
    Kernel::new(KernelConfig { tick_period_ms: 1, max_wait: 100, heap_size: 65536, word_bytes: 4 })
}

#[derive(Copy, Clone)]
struct TenMillisecondTicks;

impl FreeRtosTimeUnits for TenMillisecondTicks {
    fn tick_period_ms(_k: freertos_rust::shim::KernelView) -> u32 {
        10
    }

    fn max_wait(_k: freertos_rust::shim::KernelView) -> u32 {
        5000
    }

    fn get_tick_period_ms(_k: &Kernel) -> u32 {
        10
    }

    fn get_max_wait(_k: &Kernel) -> u32 {
        5000
    }
}

#[test]
fn duration_with_units_of_its_own() {
    let k = kernel();
    type D = DurationImpl<TenMillisecondTicks>;
    assert_eq!(D::ms(&k, 1234).to_ticks(), 123);
    assert_eq!(D::infinite(&k).to_ticks(), 5000);
    assert_eq!(D::ticks(7).to_ms(&k), 70);
}

#[derive(Copy, Clone)]
struct Seconds(u32);

impl DurationTicks for Seconds {
    fn ticks_of(&self) -> u32 {
        self.0 * 1000
    }

    fn to_ticks(&self) -> u32 {
        self.0 * 1000
    }
}

#[test]
fn wait_given_in_a_unit_of_its_own() {
    let mut k = kernel();
    let mut q: Queue<u8> = Queue::new(&mut k, 1).unwrap();
    assert_eq!(q.receive(&mut k, Seconds(2)), Err(FreeRtosError::QueueReceiveTimeout));
    assert_eq!(FreeRtosUtils::get_tick_count(&k), 2000);
}

#[derive(Copy, Clone, Debug, PartialEq)]
enum Command {
    Stop,
    Measure { client: usize },
}

impl ReplyableMessage for Command {
    fn reply_to(&self) -> Option<usize> {
        self.reply_to_client_id()
    }

    fn reply_to_client_id(&self) -> Option<usize> {
        match self {
            Command::Stop => None,
            Command::Measure { client } => Some(*client),
        }
    }
}

#[test]
fn processor_of_messages_of_its_own() {
    let mut k = kernel();
    let mut processor: Processor<Command, u16> = Processor::new(&mut k, 2).unwrap();
    let client = processor.new_client_with_reply(&mut k, 1, Duration::zero()).unwrap();
    assert_eq!(
        client.call(&mut processor, &mut k, Command::Measure { client: 1 }, Duration::zero()),
        Err(FreeRtosError::QueueReceiveTimeout)
    );
    assert_eq!(client.send(&mut processor, &mut k, Command::Stop, Duration::zero()), Ok(()));
    let first = processor.get_receive_queue().unwrap().receive(&mut k, Duration::zero()).unwrap();
    assert_eq!(first, Command::Measure { client: 1 });
    assert_eq!(processor.reply(&mut k, first, 500, Duration::zero()), Ok(true));
    let second = processor.get_receive_queue().unwrap().receive(&mut k, Duration::zero()).unwrap();
    assert_eq!(processor.reply(&mut k, second, 0, Duration::zero()), Ok(false));
    assert_eq!(client.receive(&mut processor, &mut k, Duration::zero()), Ok(500));
}
