use robo_depop_plugin::clean_data;
use robo_depop_plugin::filter::{clean_data_in_place, BlockCleaner};
use robo_depop_plugin::window::evaluate_window;

#[test]
fn spike_in_silence_is_removed() {
    assert_eq!(clean_data(&[0, 0, 0, 100, 0, 0, 0]), vec![0, 0, 0, 0, 0, 0, 0]);
}

#[test]
fn small_spike_in_silence_is_removed() {
    assert_eq!(clean_data(&[0, 0, 0, 6, 0, 0, 0]), vec![0, 0, 0, 0, 0, 0, 0]);
}

#[test]
fn ramp_is_unchanged() {
    let ramp = [0, 10, 20, 30, 40, 50];
    assert_eq!(clean_data(&ramp), ramp.to_vec());
}

#[test]
fn empty_input_gives_empty_output() {
    assert_eq!(clean_data(&[]), Vec::<i32>::new());
    let mut block: [i32; 0] = [];
    let mut scratch = [7; 4];
    clean_data_in_place(&mut block, &mut scratch);
    assert_eq!(block.len(), 0);
}

#[test]
fn clean_signal_is_a_fixed_point() {
    let signal = [5, 7, 6, 8, 7, 9, 8, 10];
    assert_eq!(clean_data(&signal), signal.to_vec());
}

#[test]
fn extreme_neighbours_replace_without_wrapping() {
    let x = [i32::MAX, i32::MAX, i32::MIN, i32::MAX, i32::MAX];
    assert_eq!(clean_data(&x), vec![i32::MAX; 5]);
    let y = [i32::MIN, i32::MIN, i32::MAX, i32::MIN, i32::MIN];
    assert_eq!(clean_data(&y), vec![i32::MIN; 5]);
}

#[test]
fn negative_midpoint_rounds_toward_zero() {
    assert_eq!(evaluate_window(-3, -2, 100, -2, -2), -2);
    assert_eq!(clean_data(&[-3, -2, 100, -2, -2]), vec![-3, -2, -2, -2, -2]);
}

#[test]
fn outlier_band_is_twice_the_spread() {
    // neighbours 0..10: avg 5, distance 10, band [-15, 25]
    assert_eq!(evaluate_window(0, 10, 25, 0, 10), 25);
    assert_eq!(evaluate_window(0, 10, 26, 0, 10), 5);
    assert_eq!(evaluate_window(0, 10, -15, 0, 10), -15);
    assert_eq!(evaluate_window(0, 10, -16, 0, 10), 5);
}

#[test]
fn boundary_samples_are_kept() {
    let x = [1000, -1000, 0, 0, 0, 0, 1000, -1000];
    let r = clean_data(&x);
    assert_eq!(r[0], 1000);
    assert_eq!(r[1], -1000);
    assert_eq!(r[6], 1000);
    assert_eq!(r[7], -1000);
    assert_eq!(clean_data(&[9, -9, 9]), vec![9, -9, 9]);
}

#[test]
fn second_sample_can_stand_out_among_minimum_neighbours() {
    let x = [i32::MIN, 0, i32::MIN, i32::MIN];
    assert_eq!(clean_data(&x), vec![i32::MIN; 4]);
}

#[test]
fn in_place_matches_batch() {
    let signal = vec![3, 3, 3, 90, 3, 3, -50, 3, 3, 4, 5, 6];
    let expected = clean_data(&signal);
    assert_eq!(expected, vec![3, 3, 3, 3, 3, 3, 3, 3, 3, 4, 5, 6]);
    let mut block = signal.clone();
    let mut scratch = vec![123; signal.len() + 10];
    clean_data_in_place(&mut block, &mut scratch);
    assert_eq!(block, expected);
}

#[test]
fn block_cleaner_reuses_its_buffer() {
    let mut cleaner = BlockCleaner::new(8);
    let mut first = [0, 0, 0, 100, 0, 0, 0];
    cleaner.clean_block(&mut first);
    assert_eq!(first, [0, 0, 0, 0, 0, 0, 0]);
    let mut second = [0, 10, 20, 30, 40, 50];
    cleaner.clean_block(&mut second);
    assert_eq!(second, [0, 10, 20, 30, 40, 50]);
}
