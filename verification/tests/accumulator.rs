use raymarch::accumulator::SampleAccumulator;
use raymarch::analysis::{ACCUMULATOR_SIZE, FFT_SIZE};

#[test]
fn new_accumulator_is_silent_and_not_ready() {
    let mut acc: SampleAccumulator<i32> = SampleAccumulator::new(0);
    assert_eq!(acc.top(), 0);
    assert!(acc.take_ready_block().is_none());
    assert_eq!(acc.top(), 0);
}

#[test]
fn store_input_writes_at_the_write_position() {
    let mut acc: SampleAccumulator<i32> = SampleAccumulator::new(-1);
    acc.store_input(&[1, 2, 3]);
    assert_eq!(acc.top(), 0);
    // The write position does not move, so the next input lands in the same place.
    acc.store_input(&[7]);
    assert_eq!(acc.top(), 0);
    assert!(acc.take_ready_block().is_none());
}

#[test]
fn store_input_accepts_a_full_buffer() {
    let mut acc: SampleAccumulator<u8> = SampleAccumulator::new(0);
    let input = vec![5u8; ACCUMULATOR_SIZE];
    acc.store_input(&input);
    assert_eq!(acc.top(), 0);
}

#[test]
fn empty_input_changes_nothing() {
    let mut acc: SampleAccumulator<u8> = SampleAccumulator::new(9);
    acc.store_input(&[]);
    assert_eq!(acc.top(), 0);
    assert!(acc.take_ready_block().is_none());
}

#[test]
fn block_size_is_the_fft_size() {
    assert_eq!(ACCUMULATOR_SIZE, 2 * FFT_SIZE);
}

#[test]
fn capture_steps_of_one_block_always_fit() {
    let mut acc: SampleAccumulator<u16> = SampleAccumulator::new(0);
    let block: Vec<u16> = (0..FFT_SIZE as u16).collect();
    for round in 0..5 {
        let _ = acc.take_ready_block();
        assert!(acc.top() + FFT_SIZE <= ACCUMULATOR_SIZE, "round {round}");
        acc.store_input(&block);
        assert!(acc.top() <= FFT_SIZE);
    }
}
