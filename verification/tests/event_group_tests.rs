use freertos_rust::Duration;
use freertos_rust::EventGroup;
use freertos_rust::FreeRtosError;
use freertos_rust::FreeRtosUtils;
use freertos_rust::Kernel;
use freertos_rust::KernelConfig;

fn kernel(heap_size: usize) -> Kernel {
    Kernel::new(KernelConfig { tick_period_ms: 1, max_wait: 1000, heap_size, word_bytes: 4 })
}

#[test]
fn bits_are_set_read_and_cleared() {
    let mut k = kernel(1024);
    let mut g = EventGroup::new(&mut k).unwrap();
    assert_ne!(g.raw_handle(), 0);
    assert_eq!(g.get_bits(), 0);
    assert_eq!(g.set_bits(0b0101), 0b0101);
    assert_eq!(g.set_bits(0b0011), 0b0111);
    assert_eq!(g.clear_bits(0b0110), 0b0111);
    assert_eq!(g.get_bits(), 0b0001);
    g.delete(&mut k);
    assert_eq!(k.heap_free(), 1024);
}

#[test]
fn wait_for_all_returns_with_all_set_and_clears_them() {
    let mut k = kernel(1024);
    let mut g = EventGroup::new(&mut k).unwrap();
    g.set_bits(0b0001);
    g.set_bits(0b1100);
    let forever = Duration::infinite(&k);
    assert_eq!(g.wait_bits(&mut k, 0b0101, 1, 1, forever), 0b1101);
    assert_eq!(g.get_bits(), 0b1000);
    assert_eq!(FreeRtosUtils::get_tick_count(&k), 0);
}

#[test]
fn wait_for_all_runs_out_while_one_bit_is_missing() {
    let mut k = kernel(1024);
    let mut g = EventGroup::new(&mut k).unwrap();
    g.set_bits(0b0001);
    assert_eq!(g.wait_bits(&mut k, 0b0101, 1, 1, Duration::from_ticks(20)), 0b0001);
    assert_eq!(g.get_bits(), 0b0001);
    assert_eq!(FreeRtosUtils::get_tick_count(&k), 20);
}

#[test]
fn wait_without_end_returns_once_every_bit_was_set() {
    let mut k = kernel(1024);
    let mut g = EventGroup::new(&mut k).unwrap();
    let mask = 0b0110;
    g.set_bits(0b0010);
    g.set_bits(0b1000);
    g.set_bits(0b0100);
    let forever = Duration::infinite(&k);
    let bits = g.wait_bits(&mut k, mask, 1, 1, forever);
    assert_eq!(bits & mask, mask);
    assert_eq!(bits, 0b1110);
    assert_eq!(g.get_bits() & mask, 0);
    assert_eq!(g.get_bits(), 0b1000);
    assert_eq!(FreeRtosUtils::get_tick_count(&k), 0);
}

#[test]
fn sync_without_end_returns_at_the_rendezvous() {
    let mut k = kernel(1024);
    let mut g = EventGroup::new(&mut k).unwrap();
    g.set_bits(0b011);
    let forever = Duration::infinite(&k);
    assert_eq!(g.sync(&mut k, 0b100, 0b111, forever), 0b111);
    assert_eq!(g.get_bits(), 0);
    assert_eq!(FreeRtosUtils::get_tick_count(&k), 0);
}

#[test]
fn wait_for_any_is_satisfied_by_one_bit() {
    let mut k = kernel(1024);
    let mut g = EventGroup::new(&mut k).unwrap();
    g.set_bits(0b0001);
    assert_eq!(g.wait_bits(&mut k, 0b0101, 0, 0, Duration::zero()), 0b0001);
    assert_eq!(g.get_bits(), 0b0001);
    assert_eq!(g.wait_bits(&mut k, 0b0101, 1, 0, Duration::zero()), 0b0001);
    assert_eq!(g.get_bits(), 0);
    assert_eq!(g.wait_bits(&mut k, 0b0101, 1, 0, Duration::from_ticks(2)), 0);
    assert_eq!(FreeRtosUtils::get_tick_count(&k), 2);
}

#[test]
fn sync_sets_then_waits_for_the_rendezvous() {
    let mut k = kernel(1024);
    let mut g = EventGroup::new(&mut k).unwrap();
    assert_eq!(g.sync(&mut k, 0b001, 0b111, Duration::from_ticks(5)), 0b001);
    assert_eq!(g.get_bits(), 0b001);
    assert_eq!(FreeRtosUtils::get_tick_count(&k), 5);
    assert_eq!(g.sync(&mut k, 0b010, 0b111, Duration::from_ticks(5)), 0b011);
    assert_eq!(FreeRtosUtils::get_tick_count(&k), 10);
    g.set_bits(0b1000);
    assert_eq!(g.sync(&mut k, 0b100, 0b111, Duration::from_ticks(5)), 0b1111);
    assert_eq!(g.get_bits(), 0b1000);
    assert_eq!(FreeRtosUtils::get_tick_count(&k), 10);
}

#[test]
fn event_group_without_memory() {
    let mut k = kernel(10);
    assert_eq!(EventGroup::new(&mut k).err(), Some(FreeRtosError::OutOfMemory));
}
