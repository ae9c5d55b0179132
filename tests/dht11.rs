use growpi::dht11::{
    decode_frame, frame_bytes, Dht11Data, Dht11Error, PulseDecoder, PulseStep, FRAME_PULSES,
    PULSE_TIMEOUT,
};

fn bit_cycles(frame: &[u8; 5]) -> Vec<u32> {
    let mut cycles = Vec::new();
    for byte in frame.iter() {
        for k in 0..8 {
            let one = (byte >> (7 - k)) & 1 == 1;
            cycles.push(50);
            cycles.push(if one { 70 } else { 26 });
        }
    }
    cycles
}

/// Feeds the levels of a whole transmission: the two response pulses, then
/// each bit's low and high pulse with the given tick counts, then the line
/// going low again.
fn run_decoder(cycles: &[u32]) -> PulseStep {
    let mut decoder = PulseDecoder::new();
    let mut pulses: Vec<u32> = vec![80, 80];
    pulses.extend_from_slice(cycles);
    for (k, ticks) in pulses.iter().enumerate() {
        let level = k % 2 == 1;
        for _ in 0..*ticks {
            let step = decoder.sample(level);
            assert_eq!(step, PulseStep::Continue);
        }
    }
    let step = decoder.sample(false);
    assert!(decoder.is_done());
    step
}

#[test]
fn synthetic_frame_decodes() {
    // 45.3 % humidity, 23.7 degrees.
    let frame = [45u8, 3, 23, 7, 78];
    let cycles = bit_cycles(&frame);
    assert_eq!(frame_bytes(&cycles), frame.to_vec());
    assert_eq!(
        run_decoder(&cycles),
        PulseStep::Done(Ok(Dht11Data { temperature_tenths: 237, humidity_tenths: 453 }))
    );
}

#[test]
fn negative_temperature_uses_minus_one_convention() {
    // Sign flag set: integral part 5 becomes -1 - 5 = -6, then 0.3 is added.
    let frame = vec![40u8, 0, 5, 0x83, (40u32 + 5 + 0x83) as u8];
    assert_eq!(
        decode_frame(&frame),
        Ok(Dht11Data { temperature_tenths: -57, humidity_tenths: 400 })
    );
}

#[test]
fn corrupted_byte_gives_checksum_mismatch() {
    let mut frame = [45u8, 3, 23, 7, 78];
    frame[2] = 24;
    let cycles = bit_cycles(&frame);
    assert_eq!(
        run_decoder(&cycles),
        PulseStep::Done(Err(Dht11Error::ChecksumMismatch { expected: 79, received: 78 }))
    );
}

#[test]
fn checksum_wraps_modulo_256() {
    let frame = vec![200u8, 100, 0, 0, 44];
    assert_eq!(
        decode_frame(&frame),
        Ok(Dht11Data { temperature_tenths: 0, humidity_tenths: 2100 })
    );
}

#[test]
fn stalled_line_times_out() {
    let mut decoder = PulseDecoder::new();
    for _ in 0..PULSE_TIMEOUT {
        assert_eq!(decoder.sample(false), PulseStep::Continue);
    }
    assert_eq!(
        decoder.sample(false),
        PulseStep::Done(Err(Dht11Error::Timeout { pulse: 0, budget: PULSE_TIMEOUT }))
    );
    assert!(decoder.is_done());
}

#[test]
fn stalled_bit_times_out_without_partial_frame() {
    let mut decoder = PulseDecoder::new();
    // Response pulses and three bits, then the line stays high.
    let pulses = [80u32, 80, 50, 26, 50, 70, 50, 26, 50];
    for (k, ticks) in pulses.iter().enumerate() {
        for _ in 0..*ticks {
            assert_eq!(decoder.sample(k % 2 == 1), PulseStep::Continue);
        }
    }
    let mut last = PulseStep::Continue;
    for _ in 0..=PULSE_TIMEOUT {
        last = decoder.sample(true);
        if last != PulseStep::Continue {
            break;
        }
    }
    assert_eq!(
        last,
        PulseStep::Done(Err(Dht11Error::Timeout { pulse: 9, budget: PULSE_TIMEOUT }))
    );
    assert_eq!(FRAME_PULSES, 82);
}
