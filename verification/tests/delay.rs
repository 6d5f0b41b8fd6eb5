use synth_engine::effects::delay::{Delay, DelayStep};

fn process_sample(delay: &mut Delay, buffer: &mut Vec<f32>, input: f32, feedback: f32, mix: f32) -> f32 {
    let step = delay.process_sample();
    let delayed_sample = buffer[step.read_index];
    let wet_signal = input + feedback * delayed_sample;
    let output = (1.0 - mix) * input + mix * wet_signal;
    buffer[step.write_index] = wet_signal;
    output
}

#[test]
fn test_delay_basic() {
    let sample_rate = 44100.0;
    // A delay of 0.2 seconds with 70% feedback and 80% wet mix.
    let delay_samples = (sample_rate * 0.2) as usize;
    let mut delay = Delay::new(delay_samples);
    let mut buffer = vec![0.0f32; delay.buffer_size];
    let feedback = 0.7;
    let mix = 0.8;

    // Process an impulse (1.0 followed by zeros).
    let impulse = 1.0;
    let output_impulse = process_sample(&mut delay, &mut buffer, impulse, feedback, mix);
    // The buffer is empty at first, so the wet signal is the input.
    assert!((output_impulse - 1.0).abs() < 0.0001);

    // Process zeros until the delayed impulse is due.
    let mut delayed_output = 0.0;
    for _ in 0..(delay.delay_samples - 1) {
        delayed_output = process_sample(&mut delay, &mut buffer, 0.0, feedback, mix);
    }
    assert!(delayed_output.abs() < 0.0001);
    // At the delay time the impulse comes out, scaled by feedback and mix.
    delayed_output = process_sample(&mut delay, &mut buffer, 0.0, feedback, mix);
    let expected = 0.8 * (1.0 * 0.7);
    assert!((delayed_output - expected).abs() < 0.0001);
}

#[test]
fn delay_line_positions() {
    let mut delay = Delay::new(3);
    assert_eq!(
        delay,
        Delay { buffer_size: 4, write_index: 0, delay_samples: 3 }
    );
    assert_eq!(delay.process_sample(), DelayStep { read_index: 1, write_index: 0 });
    assert_eq!(delay.process_sample(), DelayStep { read_index: 2, write_index: 1 });
    assert_eq!(delay.process_sample(), DelayStep { read_index: 3, write_index: 2 });
    assert_eq!(delay.process_sample(), DelayStep { read_index: 0, write_index: 3 });
    assert_eq!(delay.process_sample(), DelayStep { read_index: 1, write_index: 0 });
    assert_eq!(delay.write_index, 1);
}

#[test]
fn validity_of_a_delay_line() {
    assert!(Delay::new(0).is_valid());
    assert!(Delay::new(5).is_valid());
    assert!(!Delay { buffer_size: 4, write_index: 4, delay_samples: 3 }.is_valid());
    assert!(!Delay { buffer_size: 5, write_index: 0, delay_samples: 3 }.is_valid());
    assert!(!Delay { buffer_size: 0, write_index: 0, delay_samples: usize::MAX }.is_valid());
}

#[test]
fn a_delay_of_nothing_reads_what_it_writes() {
    let mut delay = Delay::new(0);
    assert_eq!(delay.buffer_size, 1);
    assert_eq!(delay.process_sample(), DelayStep { read_index: 0, write_index: 0 });
    assert_eq!(delay.process_sample(), DelayStep { read_index: 0, write_index: 0 });
}

#[test]
fn what_is_written_is_read_after_the_delay_and_not_before() {
    for delay_samples in 0..20usize {
        let mut delay = Delay::new(delay_samples);
        // Let the line run for a while first.
        for _ in 0..7 {
            delay.process_sample();
        }
        let written = delay.process_sample().write_index;
        for step in 1..=delay_samples {
            let read = delay.process_sample().read_index;
            assert_eq!(read == written, step == delay_samples);
        }
    }
}
