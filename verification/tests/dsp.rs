use sdr_web::dsp::{decimate, fft_shift, DelayLine};

#[test]
fn fft_shift_swaps_halves() {
    assert_eq!(fft_shift(&[0, 1, 2, 3, 4, 5]), vec![3, 4, 5, 0, 1, 2]);
    let empty: [u8; 0] = [];
    assert_eq!(fft_shift(&empty), Vec::<u8>::new());
}

#[test]
fn fft_shift_dc_to_center() {
    let size = 256;
    let mut bins = vec![0.0f32; size];
    bins[0] = 1.0;
    let shifted = fft_shift(&bins);
    assert_eq!(shifted[size / 2], 1.0);
    assert_eq!(shifted.iter().filter(|&&x| x == 1.0).count(), 1);
}

#[test]
fn fft_shift_twice_is_identity() {
    let v: Vec<u32> = (0..1024).collect();
    assert_eq!(fft_shift(&fft_shift(&v)), v);
}

#[test]
fn decimate_lengths() {
    let input: Vec<u32> = (0..1024).collect();
    assert_eq!(decimate(&input, 8).len(), 1024 / 8);
    let input = vec![1.0f32; 500];
    assert_eq!(decimate(&input, 5).len(), 500 / 5);
}

#[test]
fn decimate_keeps_every_nth() {
    let input: Vec<u32> = (0..10).collect();
    assert_eq!(decimate(&input, 3), vec![0, 3, 6, 9]);
    assert_eq!(decimate(&input, 4), vec![0, 4, 8]);
    assert_eq!(decimate(&input, 1), input);
    assert_eq!(decimate(&input, 20), vec![0]);
    let empty: [u32; 0] = [];
    assert_eq!(decimate(&empty, 3), Vec::<u32>::new());
}

#[test]
fn delay_line_newest_first() {
    let mut d = DelayLine::new(3, 0i32);
    assert_eq!(d.len(), 3);
    d.push(1);
    assert_eq!((d.tap(0), d.tap(1), d.tap(2)), (1, 0, 0));
    d.push(2);
    d.push(3);
    assert_eq!((d.tap(0), d.tap(1), d.tap(2)), (3, 2, 1));
    d.push(4);
    assert_eq!((d.tap(0), d.tap(1), d.tap(2)), (4, 3, 2));
}

#[test]
fn delay_line_single_slot() {
    let mut d = DelayLine::new(1, 0u8);
    d.push(7);
    assert_eq!(d.tap(0), 7);
    d.push(9);
    assert_eq!(d.tap(0), 9);
}
