//! Single-wire humidity and temperature sensor: pulse timing state machine
//! and frame decoding.
//!
//! After the start request the sensor answers with one low and one high
//! pulse, then sends 40 bits. Each bit is a low pulse followed by a high
//! pulse; a high pulse longer than its low pulse is a one. The bits form five
//! bytes, most significant bit first: integral and tenth humidity, integral
//! temperature, sign flag and tenth temperature, and a checksum that must equal
//! the sum of the first four bytes modulo 256.
//!
//! The caller samples the line at a fixed tick and hands each level to
//! [`PulseDecoder::sample`]; the decoder decides when the frame is complete,
//! when a pulse has lasted too long, and what the frame holds. It never
//! retries: one decoder makes one acquisition attempt.
use vstd::prelude::*;

verus! {

/// Ticks a pulse may last before the acquisition is abandoned.
pub const PULSE_TIMEOUT: u32 = 1000;

/// Bits in one frame.
pub const FRAME_BITS: usize = 40;

/// Bytes in one frame.
pub const FRAME_BYTES: usize = 5;

/// Pulses in one acquisition: the two response pulses, then a low and a high
/// pulse for each bit.
pub const FRAME_PULSES: usize = 82;

/// Bit of the fourth byte that marks a negative temperature.
pub const SIGN_FLAG: u8 = 128;

/// A decoded reading, in tenths of a percent of relative humidity and tenths
/// of a degree Celsius.
#[derive(Clone, Copy, Debug, PartialEq, Eq, Structural)]
pub struct Dht11Data {
    pub temperature_tenths: i32,
    pub humidity_tenths: u32,
}

/// Why an acquisition produced no reading.
#[derive(Clone, Copy, Debug, PartialEq, Eq, Structural)]
pub enum Dht11Error {
    /// Pulse `pulse` (counted from the first response pulse) lasted more
    /// than `budget` ticks.
    Timeout { pulse: usize, budget: u32 },
    /// The checksum byte `received` differs from `expected`, the sum of the
    /// four data bytes modulo 256.
    ChecksumMismatch { expected: u8, received: u8 },
}

/// The line level during pulse `pulse`: the response starts low, and the
/// levels alternate from there.
pub open spec fn pulse_level(pulse: int) -> bool {
    pulse % 2 == 1
}

/// Bit `i` of the frame timed by `cycles`, which holds the low and then the
/// high duration of each bit in turn.
pub open spec fn bit_of(cycles: Seq<u32>, i: int) -> bool {
    cycles[2 * i + 1] > cycles[2 * i]
}

/// The value of the first `k` bits of byte `j`, most significant first.
pub open spec fn byte_prefix(cycles: Seq<u32>, j: int, k: nat) -> int
    decreases k,
{
    if k == 0 {
        0
    } else {
        2 * byte_prefix(cycles, j, (k - 1) as nat) + if bit_of(cycles, 8 * j + k - 1) {
            1int
        } else {
            0int
        }
    }
}

/// The five bytes of the frame timed by `cycles`.
pub open spec fn frame_of(cycles: Seq<u32>) -> Seq<u8> {
    Seq::new(5, |j: int| byte_prefix(cycles, j, 8) as u8)
}

/// The checksum that the data bytes of `frame` call for.
pub open spec fn checksum_of(frame: Seq<u8>) -> u8 {
    ((frame[0] + frame[1] + frame[2] + frame[3]) % 256) as u8
}

pub open spec fn frame_valid(frame: Seq<u8>) -> bool {
    frame[4] == checksum_of(frame)
}

/// Humidity in tenths: the integral byte plus the tenth byte.
pub open spec fn humidity_tenths_of(frame: Seq<u8>) -> int {
    10 * frame[0] + frame[1]
}

/// Temperature in tenths. With the sign flag set, the integral part `t`
/// becomes `-1 - t` (not `-t`) before the tenths, the low four bits of the
/// fourth byte, are added; without it the integral part is taken as it is.
pub open spec fn temperature_tenths_of(frame: Seq<u8>) -> int {
    (if frame[3] >= SIGN_FLAG {
        -10 - 10 * frame[2]
    } else {
        10 * frame[2]
    }) + frame[3] % 16
}

/// What a complete frame yields.
pub open spec fn decode_spec(frame: Seq<u8>) -> Result<Dht11Data, Dht11Error> {
    if frame_valid(frame) {
        Ok(
            Dht11Data {
                temperature_tenths: temperature_tenths_of(frame) as i32,
                humidity_tenths: humidity_tenths_of(frame) as u32,
            },
        )
    } else {
        Err(Dht11Error::ChecksumMismatch { expected: checksum_of(frame), received: frame[4] })
    }
}

/// Assembles the five frame bytes from the 40 paired low/high durations.
pub fn frame_bytes(cycles: &Vec<u32>) -> (r: Vec<u8>)
    requires
        cycles@.len() == 2 * FRAME_BITS,
    ensures
        r@ == frame_of(cycles@),
{
    let mut data: Vec<u8> = Vec::new();
    let mut j: usize = 0;
    while j < FRAME_BYTES
        invariant
            cycles@.len() == 80,
            j <= 5,
            data@.len() == j,
            forall|x: int| 0 <= x < j ==> data@[x] == byte_prefix(cycles@, x, 8) as u8,
        decreases 5 - j,
    {
        let mut acc: u8 = 0;
        let mut k: usize = 0;
        while k < 8
            invariant
                cycles@.len() == 80,
                j < 5,
                k <= 8,
                acc as int == byte_prefix(cycles@, j as int, k as nat),
                0 <= byte_prefix(cycles@, j as int, k as nat) < pow2_small(k as nat),
            decreases 8 - k,
        {
            let i: usize = 8 * j + k;
            let low = cycles[2 * i];
            let high = cycles[2 * i + 1];
            proof {
                reveal_with_fuel(pow2_small, 9);
            }
            if high > low {
                acc = 2 * acc + 1;
            } else {
                acc = 2 * acc;
            }
            k = k + 1;
        }
        proof {
            reveal_with_fuel(pow2_small, 9);
        }
        data.push(acc);
        j = j + 1;
    }
    assert(data@ =~= frame_of(cycles@));
    data
}

/// Two to the power `k`, for the byte widths used here.
pub open spec fn pow2_small(k: nat) -> int
    decreases k,
{
    if k == 0 {
        1
    } else {
        2 * pow2_small((k - 1) as nat)
    }
}

/// Checks the checksum of a frame and decodes its values.
pub fn decode_frame(frame: &Vec<u8>) -> (r: Result<Dht11Data, Dht11Error>)
    requires
        frame@.len() == FRAME_BYTES,
    ensures
        r == decode_spec(frame@),
{
    let sum: u32 = frame[0] as u32 + frame[1] as u32 + frame[2] as u32 + frame[3] as u32;
    let expected: u8 = (sum % 256) as u8;
    if frame[4] != expected {
        return Err(Dht11Error::ChecksumMismatch { expected, received: frame[4] });
    }
    let mut temperature: i32 = 10 * frame[2] as i32;
    if frame[3] >= SIGN_FLAG {
        temperature = -10 - temperature;
    }
    temperature = temperature + (frame[3] % 16) as i32;
    let humidity: u32 = 10 * frame[0] as u32 + frame[1] as u32;
    Ok(Dht11Data { temperature_tenths: temperature, humidity_tenths: humidity })
}


/// What the decoder holds, as a mathematical value.
pub ghost struct DecoderState {
    /// The pulse being timed, counted from the first response pulse.
    pub pulse: int,
    /// Ticks seen so far in that pulse.
    pub count: int,
    /// Durations of the finished bit pulses, low and high in turn.
    pub cycles: Seq<u32>,
    /// Whether the acquisition has ended, with a reading or an error.
    pub done: bool,
}

/// The outcome of one tick.
#[derive(Clone, Copy, Debug, PartialEq, Eq)]
pub enum PulseStep {
    /// Sample the line again after one tick.
    Continue,
    /// The acquisition has ended.
    Done(Result<Dht11Data, Dht11Error>),
}

/// The bit durations once pulse `s.pulse` has ended: only pulses after the
/// two response pulses carry a bit.
pub open spec fn cycles_after_pulse(s: DecoderState) -> Seq<u32> {
    if s.pulse >= 2 {
        s.cycles.push(s.count as u32)
    } else {
        s.cycles
    }
}

/// One tick of the decoder, which sees the line at `level`.
pub open spec fn step(s: DecoderState, level: bool) -> (DecoderState, PulseStep) {
    if level == pulse_level(s.pulse) {
        if s.count >= PULSE_TIMEOUT {
            (
                DecoderState { done: true, ..s },
                PulseStep::Done(
                    Err(Dht11Error::Timeout { pulse: s.pulse as usize, budget: PULSE_TIMEOUT }),
                ),
            )
        } else {
            (DecoderState { count: s.count + 1, ..s }, PulseStep::Continue)
        }
    } else {
        let cycles = cycles_after_pulse(s);
        if s.pulse + 1 == FRAME_PULSES {
            (
                DecoderState { pulse: s.pulse + 1, count: 0, cycles, done: true },
                PulseStep::Done(decode_spec(frame_of(cycles))),
            )
        } else {
            // The tick that ends a pulse is the first tick of the next one.
            (DecoderState { pulse: s.pulse + 1, count: 1, cycles, done: false }, PulseStep::Continue)
        }
    }
}

/// The state of a fresh decoder, waiting for the first response pulse.
pub open spec fn initial_state() -> DecoderState {
    DecoderState { pulse: 0, count: 0, cycles: Seq::empty(), done: false }
}

/// Times the pulses of one acquisition and decodes the frame they carry.
pub struct PulseDecoder {
    pulse: usize,
    count: u32,
    cycles: Vec<u32>,
    done: bool,
}

impl View for PulseDecoder {
    type V = DecoderState;

    closed spec fn view(&self) -> DecoderState {
        DecoderState {
            pulse: self.pulse as int,
            count: self.count as int,
            cycles: self.cycles@,
            done: self.done,
        }
    }
}

impl PulseDecoder {
    /// The decoder's invariant: an unfinished acquisition is within the
    /// frame, within the tick budget, and has one duration per finished bit
    /// pulse.
    pub open spec fn wf(&self) -> bool {
        let s = self@;
        s.done || (0 <= s.pulse < FRAME_PULSES && 0 <= s.count <= PULSE_TIMEOUT
            && s.cycles.len() == if s.pulse >= 2 {
            s.pulse - 2
        } else {
            0
        })
    }

    pub fn new() -> (r: PulseDecoder)
        ensures
            r.wf(),
            r@ == initial_state(),
    {
        let r = PulseDecoder { pulse: 0, count: 0, cycles: Vec::new(), done: false };
        assert(r@.cycles =~= Seq::<u32>::empty());
        r
    }

    /// Whether the acquisition has ended.
    pub fn is_done(&self) -> (r: bool)
        ensures
            r == self@.done,
    {
        self.done
    }

    /// Takes the line level of one tick and says whether to go on sampling
    /// or what the acquisition produced.
    pub fn sample(&mut self, level: bool) -> (r: PulseStep)
        requires
            old(self).wf(),
            !old(self)@.done,
        ensures
            final(self).wf(),
            (final(self)@, r) == step(old(self)@, level),
    {
        let expected = self.pulse % 2 == 1;
        if level == expected {
            if self.count >= PULSE_TIMEOUT {
                self.done = true;
                return PulseStep::Done(
                    Err(Dht11Error::Timeout { pulse: self.pulse, budget: PULSE_TIMEOUT }),
                );
            }
            self.count = self.count + 1;
            return PulseStep::Continue;
        }
        if self.pulse >= 2 {
            self.cycles.push(self.count);
        }
        self.pulse = self.pulse + 1;
        if self.pulse == FRAME_PULSES {
            self.count = 0;
            self.done = true;
            let frame = frame_bytes(&self.cycles);
            return PulseStep::Done(decode_frame(&frame));
        }
        self.count = 1;
        PulseStep::Continue
    }
}


/// `x` shifted right by `n` bits.
pub open spec fn shift_right(x: int, n: nat) -> int
    decreases n,
{
    if n == 0 {
        x
    } else {
        shift_right(x, (n - 1) as nat) / 2
    }
}

/// Bit `k` of `b`, counted from the most significant of its eight bits.
pub open spec fn bit_at(b: u8, k: int) -> bool {
    shift_right(b as int, (7 - k) as nat) % 2 == 1
}

/// Durations of a well-timed transmission of `frame`: each bit has a low
/// pulse of 50 ticks and a high pulse of 70 ticks for a one, 26 for a zero.
pub open spec fn encode_cycles(frame: Seq<u8>) -> Seq<u32> {
    Seq::new(
        80,
        |i: int|
            if i % 2 == 0 {
                50u32
            } else if bit_at(frame[(i / 2) / 8], (i / 2) % 8) {
                70u32
            } else {
                26u32
            },
    )
}

/// The ticks of one whole acquisition fed to the decoder from state `s`, up
/// to the first tick that ends it.
pub open spec fn run(s: DecoderState, levels: Seq<bool>) -> (DecoderState, PulseStep)
    decreases levels.len(),
{
    if levels.len() == 0 {
        (s, PulseStep::Continue)
    } else {
        let (next, outcome) = step(s, levels[0]);
        if next.done {
            (next, outcome)
        } else {
            run(next, levels.drop_first())
        }
    }
}

proof fn lemma_shift_out_byte(b: u8)
    ensures
        shift_right(b as int, 8) == 0,
{
    reveal_with_fuel(shift_right, 9);
}

proof fn lemma_byte_prefix_encoded(frame: Seq<u8>, j: int, k: nat)
    requires
        frame.len() == 5,
        0 <= j < 5,
        k <= 8,
    ensures
        byte_prefix(encode_cycles(frame), j, k) == shift_right(frame[j] as int, (8 - k) as nat),
    decreases k,
{
    let enc = encode_cycles(frame);
    if k == 0 {
        lemma_shift_out_byte(frame[j]);
    } else {
        lemma_byte_prefix_encoded(frame, j, (k - 1) as nat);
        let i = 8 * j + k - 1;
        assert((2 * i) % 2 == 0 && (2 * i + 1) % 2 == 1);
        assert((2 * i + 1) / 2 == i && (2 * i) / 2 == i);
        assert(i / 8 == j && i % 8 == k - 1);
        let y = shift_right(frame[j] as int, (8 - k) as nat);
        assert(shift_right(frame[j] as int, (9 - k) as nat) == y / 2);
        assert(bit_of(enc, i) == (y % 2 == 1));
        assert(2 * (y / 2) + y % 2 == y);
    }
}

/// A frame sent with correct timing and a correct checksum is read back
/// byte for byte and decodes to its humidity and temperature.
pub proof fn lemma_valid_frame_decodes(frame: Seq<u8>)
    requires
        frame.len() == 5,
        frame_valid(frame),
    ensures
        frame_of(encode_cycles(frame)) == frame,
        decode_spec(frame_of(encode_cycles(frame))) == Ok::<Dht11Data, Dht11Error>(
            Dht11Data {
                temperature_tenths: temperature_tenths_of(frame) as i32,
                humidity_tenths: humidity_tenths_of(frame) as u32,
            },
        ),
{
    assert forall|j: int| 0 <= j < 5 implies frame_of(encode_cycles(frame))[j] == frame[j] by {
        lemma_byte_prefix_encoded(frame, j, 8);
    }
    assert(frame_of(encode_cycles(frame)) =~= frame);
}

/// Changing any single byte of a valid frame makes the checksum fail, so the
/// corrupted frame is never decoded.
pub proof fn lemma_corrupted_frame_rejected(frame: Seq<u8>, i: int, v: u8)
    requires
        frame.len() == 5,
        frame_valid(frame),
        0 <= i < 5,
        v != frame[i],
    ensures
        !frame_valid(frame.update(i, v)),
        decode_spec(frame.update(i, v)) == Err::<Dht11Data, Dht11Error>(
            Dht11Error::ChecksumMismatch {
                expected: checksum_of(frame.update(i, v)),
                received: frame.update(i, v)[4],
            },
        ),
{
    let g = frame.update(i, v);
    assert(g[0] + g[1] + g[2] + g[3] - (frame[0] + frame[1] + frame[2] + frame[3]) == if i < 4 {
        v - frame[i]
    } else {
        0
    });
}

/// A line that stays at the level of the current pulse for more ticks than
/// the budget leaves ends the acquisition with a timeout, and with nothing
/// else.
pub proof fn lemma_stalled_line_times_out(s: DecoderState, levels: Seq<bool>)
    requires
        !s.done,
        0 <= s.count <= PULSE_TIMEOUT,
        levels.len() > PULSE_TIMEOUT - s.count,
        forall|t: int| 0 <= t < levels.len() ==> levels[t] == pulse_level(s.pulse),
    ensures
        run(s, levels).1 == PulseStep::Done(
            Err(Dht11Error::Timeout { pulse: s.pulse as usize, budget: PULSE_TIMEOUT }),
        ),
    decreases PULSE_TIMEOUT - s.count,
{
    let (next, outcome) = step(s, levels[0]);
    if s.count < PULSE_TIMEOUT {
        let rest = levels.drop_first();
        assert forall|t: int| 0 <= t < rest.len() implies rest[t] == pulse_level(next.pulse) by {
            assert(rest[t] == levels[t + 1]);
        }
        lemma_stalled_line_times_out(next, rest);
    }
}

/// The decoder never hands out a partial frame: a tick that ends the
/// acquisition with a reading has seen all 40 bits, and the reading is the
/// decoding of a frame whose checksum holds.
pub proof fn lemma_reading_only_from_whole_frame(s: DecoderState, level: bool)
    requires
        !s.done,
        0 <= s.pulse < FRAME_PULSES,
        s.cycles.len() == if s.pulse >= 2 {
            s.pulse - 2
        } else {
            0
        },
    ensures
        step(s, level).1 matches PulseStep::Done(Ok(d)) ==> {
            let cycles = cycles_after_pulse(s);
            &&& cycles.len() == 2 * FRAME_BITS
            &&& frame_valid(frame_of(cycles))
            &&& d.humidity_tenths == humidity_tenths_of(frame_of(cycles))
            &&& d.temperature_tenths == temperature_tenths_of(frame_of(cycles))
        },
{
}

/// The ticks of pulse `k` of a transmission whose pulse `j` lasts
/// `pulses[j]` ticks.
pub open spec fn pulse_ticks(pulses: Seq<u32>, k: int) -> Seq<bool> {
    Seq::new(pulses[k] as nat, |t: int| pulse_level(k))
}

/// The ticks of the first `k` pulses of a transmission.
pub open spec fn transmission(pulses: Seq<u32>, k: nat) -> Seq<bool>
    decreases k,
{
    if k == 0 {
        Seq::empty()
    } else {
        transmission(pulses, (k - 1) as nat) + pulse_ticks(pulses, k - 1)
    }
}

proof fn lemma_run_append(s: DecoderState, a: Seq<bool>, b: Seq<bool>)
    requires
        !run(s, a).0.done,
    ensures
        run(s, a + b) == run(run(s, a).0, b),
    decreases a.len(),
{
    if a.len() > 0 {
        let (next, _) = step(s, a[0]);
        assert((a + b).drop_first() =~= a.drop_first() + b);
        assert((a + b)[0] == a[0]);
        if !next.done {
            lemma_run_append(next, a.drop_first(), b);
        }
    } else {
        assert(a + b =~= b);
    }
}

proof fn lemma_run_block(s: DecoderState, n: nat)
    requires
        !s.done,
        s.count + n <= PULSE_TIMEOUT,
    ensures
        run(s, Seq::new(n, |t: int| pulse_level(s.pulse))) == (
            DecoderState { count: s.count + n, ..s },
            PulseStep::Continue,
        ),
    decreases n,
{
    let block = Seq::new(n, |t: int| pulse_level(s.pulse));
    if n > 0 {
        let next = DecoderState { count: s.count + 1, ..s };
        assert(step(s, block[0]) == (next, PulseStep::Continue));
        assert(block.drop_first() =~= Seq::new((n - 1) as nat, |t: int| pulse_level(next.pulse)));
        lemma_run_block(next, (n - 1) as nat);
    }
}

/// Recorded durations once the first `k` pulses have been timed.
pub open spec fn recorded(pulses: Seq<u32>, k: int) -> Seq<u32> {
    if k >= 3 {
        pulses.subrange(2, k - 1)
    } else {
        Seq::empty()
    }
}

proof fn lemma_transmission_prefix(pulses: Seq<u32>, k: nat)
    requires
        pulses.len() == FRAME_PULSES,
        1 <= k <= FRAME_PULSES,
        forall|j: int| 0 <= j < FRAME_PULSES ==> 1 <= #[trigger] pulses[j] <= PULSE_TIMEOUT,
    ensures
        run(initial_state(), transmission(pulses, k)) == (
            DecoderState {
                pulse: k - 1,
                count: pulses[k - 1] as int,
                cycles: recorded(pulses, k as int),
                done: false,
            },
            PulseStep::Continue,
        ),
    decreases k,
{
    if k == 1 {
        assert(transmission(pulses, 1) =~= pulse_ticks(pulses, 0)) by {
            assert(transmission(pulses, 0) =~= Seq::<bool>::empty());
        }
        lemma_run_block(initial_state(), pulses[0] as nat);
        assert(recorded(pulses, 1) =~= Seq::<u32>::empty());
    } else {
        let km = (k - 1) as nat;
        lemma_transmission_prefix(pulses, km);
        let s = run(initial_state(), transmission(pulses, km)).0;
        lemma_run_append(initial_state(), transmission(pulses, km), pulse_ticks(pulses, km as int));
        let ticks = pulse_ticks(pulses, km as int);
        let level = pulse_level(km as int);
        assert(level != pulse_level(s.pulse));
        let next = DecoderState {
            pulse: s.pulse + 1,
            count: 1,
            cycles: cycles_after_pulse(s),
            done: false,
        };
        assert(step(s, ticks[0]) == (next, PulseStep::Continue));
        lemma_run_block(next, (pulses[km as int] - 1) as nat);
        assert(ticks.drop_first() =~= Seq::new(
            (pulses[km as int] - 1) as nat,
            |t: int| pulse_level(next.pulse),
        ));
        if k >= 4 {
            if k == 4 {
                assert(recorded(pulses, 3) =~= Seq::<u32>::empty());
            }
            assert(recorded(pulses, k as int) =~= recorded(pulses, km as int).push(
                pulses[km - 1],
            ));
        } else {
            assert(recorded(pulses, k as int) =~= Seq::<u32>::empty());
        }
    }
}

/// A whole transmission, each pulse within the tick budget, fed tick by tick
/// to a fresh decoder followed by the line falling at the end, yields exactly
/// the decoding of the 40 bits that the durations of its bit pulses carry.
pub proof fn lemma_transmission_decodes(pulses: Seq<u32>)
    requires
        pulses.len() == FRAME_PULSES,
        forall|j: int| 0 <= j < FRAME_PULSES ==> 1 <= #[trigger] pulses[j] <= PULSE_TIMEOUT,
    ensures
        run(initial_state(), transmission(pulses, FRAME_PULSES as nat).push(false)).1
            == PulseStep::Done(decode_spec(frame_of(pulses.subrange(2, FRAME_PULSES as int)))),
{
    let full = transmission(pulses, FRAME_PULSES as nat);
    lemma_transmission_prefix(pulses, FRAME_PULSES as nat);
    lemma_run_append(initial_state(), full, seq![false]);
    assert(full.push(false) =~= full + seq![false]);
    let s = run(initial_state(), full).0;
    assert(cycles_after_pulse(s) =~= pulses.subrange(2, FRAME_PULSES as int));
    assert(seq![false].drop_first() =~= Seq::<bool>::empty());
}

/// A well-timed transmission of a frame with a correct checksum, response
/// pulses of 80 ticks included, is read by the decoder as that frame's
/// humidity and temperature.
pub proof fn lemma_synthetic_frame_read(frame: Seq<u8>)
    requires
        frame.len() == 5,
        frame_valid(frame),
    ensures
        run(
            initial_state(),
            transmission(seq![80u32, 80u32] + encode_cycles(frame), FRAME_PULSES as nat).push(false),
        ).1 == PulseStep::Done(
            Ok(
                Dht11Data {
                    temperature_tenths: temperature_tenths_of(frame) as i32,
                    humidity_tenths: humidity_tenths_of(frame) as u32,
                },
            ),
        ),
{
    let pulses = seq![80u32, 80u32] + encode_cycles(frame);
    assert forall|j: int| 0 <= j < FRAME_PULSES implies 1 <= #[trigger] pulses[j]
        <= PULSE_TIMEOUT by {
        if j >= 2 {
            assert(pulses[j] == encode_cycles(frame)[j - 2]);
        }
    }
    lemma_transmission_decodes(pulses);
    assert(pulses.subrange(2, FRAME_PULSES as int) =~= encode_cycles(frame));
    lemma_valid_frame_decodes(frame);
}

} // verus!
