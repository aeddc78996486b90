//! WAV byte generation: a PCM container writer with an exact byte-level
//! contract, and the three procedurally synthesized sound effects (paddle
//! hit, wall hit, score) built on a fixed-point sine. The synthesis is a
//! stateless pure-data utility: it runs once at startup, and the simulation
//! never depends on it.
use vstd::prelude::*;

verus! {

use crate::num::{mul_frac_milli, sin_circle};

/// Sample rate of every generated effect, in hertz.
pub const SOUND_SAMPLE_RATE: u32 = 44100;

/// The four bytes of `n` in little-endian order.
pub open spec fn u32_le_spec(n: int) -> Seq<u8> {
    seq![
        (n % 256) as u8,
        (n / 256 % 256) as u8,
        (n / 65536 % 256) as u8,
        (n / 16777216 % 256) as u8,
    ]
}

/// The two bytes of `n` in little-endian order.
pub open spec fn u16_le_spec(n: int) -> Seq<u8> {
    seq![(n % 256) as u8, (n / 256 % 256) as u8]
}

/// The 44 header bytes of a mono 16-bit PCM WAV file carrying `data_len`
/// bytes of samples at `rate` hertz: the RIFF tag and file size, the WAVE
/// tag, the `fmt ` chunk (PCM, one channel, the rate, the byte rate, block
/// align two, sixteen bits), and the `data` chunk tag with its length.
pub open spec fn wav_header_spec(data_len: int, rate: int) -> Seq<u8> {
    seq![82u8, 73u8, 70u8, 70u8] + u32_le_spec(36 + data_len) + seq![87u8, 65u8, 86u8, 69u8]
        + seq![102u8, 109u8, 116u8, 32u8] + u32_le_spec(16) + u16_le_spec(1) + u16_le_spec(1)
        + u32_le_spec(rate) + u32_le_spec(2 * rate) + u16_le_spec(2) + u16_le_spec(16) + seq![
        100u8,
        97u8,
        116u8,
        97u8,
    ] + u32_le_spec(data_len)
}

/// Appends the four little-endian bytes of `n`.
fn push_u32_le(out: &mut Vec<u8>, n: u32)
    ensures
        final(out)@ == old(out)@ + u32_le_spec(n as int),
{
    out.push((n % 256) as u8);
    out.push((n / 256 % 256) as u8);
    out.push((n / 65536 % 256) as u8);
    out.push((n / 16777216 % 256) as u8);
    proof {
        assert(out@ =~= old(out)@ + u32_le_spec(n as int));
    }
}

/// Appends the two little-endian bytes of `n`.
fn push_u16_le(out: &mut Vec<u8>, n: u16)
    ensures
        final(out)@ == old(out)@ + u16_le_spec(n as int),
{
    out.push((n % 256) as u8);
    out.push((n / 256) as u8);
    proof {
        assert(n as int / 256 % 256 == n as int / 256) by {
            vstd::arithmetic::div_mod::lemma_div_is_ordered(n as int, 65535, 256);
            vstd::arithmetic::div_mod::lemma_small_mod((n as int / 256) as nat, 256 as nat);
        }
        assert(out@ =~= old(out)@ + u16_le_spec(n as int));
    }
}

/// Wraps raw 16-bit mono PCM bytes in a WAV container: the result is
/// exactly the 44-byte header for this length and rate, followed by the
/// sample bytes unchanged.
pub fn create_wav_file(audio_data: &Vec<u8>, sample_rate: u32) -> (out: Vec<u8>)
    requires
        audio_data@.len() <= 100000000,
        sample_rate <= 1000000000,
    ensures
        out@.len() == 44 + audio_data@.len(),
        out@ == wav_header_spec(audio_data@.len() as int, sample_rate as int) + audio_data@,
        out@.subrange(0, 44) == wav_header_spec(audio_data@.len() as int, sample_rate as int),
        out@.subrange(44, out@.len() as int) == audio_data@,
{
    let mut out: Vec<u8> = Vec::new();
    out.push(82);
    out.push(73);
    out.push(70);
    out.push(70);
    let file_size = 36 + (audio_data.len() as u32);
    push_u32_le(&mut out, file_size);
    out.push(87);
    out.push(65);
    out.push(86);
    out.push(69);
    out.push(102);
    out.push(109);
    out.push(116);
    out.push(32);
    push_u32_le(&mut out, 16);
    push_u16_le(&mut out, 1);
    push_u16_le(&mut out, 1);
    push_u32_le(&mut out, sample_rate);
    push_u32_le(&mut out, 2 * sample_rate);
    push_u16_le(&mut out, 2);
    push_u16_le(&mut out, 16);
    out.push(100);
    out.push(97);
    out.push(116);
    out.push(97);
    push_u32_le(&mut out, audio_data.len() as u32);
    proof {
        assert(out@ =~= wav_header_spec(audio_data@.len() as int, sample_rate as int));
    }
    let mut i: usize = 0;
    let n = audio_data.len();
    while i < n
        invariant
            i <= n,
            n == audio_data@.len(),
            out@ == wav_header_spec(audio_data@.len() as int, sample_rate as int)
                + audio_data@.subrange(0, i as int),
        decreases n - i,
    {
        let b = audio_data[i];
        out.push(b);
        proof {
            assert(out@ =~= wav_header_spec(audio_data@.len() as int, sample_rate as int)
                + audio_data@.subrange(0, i as int + 1));
        }
        i = i + 1;
    }
    proof {
        assert(audio_data@.subrange(0, n as int) =~= audio_data@);
        assert(out@.subrange(0, 44) =~= wav_header_spec(audio_data@.len() as int,
            sample_rate as int));
        assert(out@.subrange(44, out@.len() as int) =~= audio_data@);
    }
    out
}

/// One synthesized sample scaled into a signed 16-bit value, appended as
/// two little-endian two's-complement bytes.
fn push_sample(out: &mut Vec<u8>, val: i64)
    requires
        -32767 <= val <= 32767,
    ensures
        final(out)@.len() == old(out)@.len() + 2,
{
    let u: u16 = if val >= 0 {
        val as u16
    } else {
        (val + 65536) as u16
    };
    out.push((u % 256) as u8);
    out.push((u / 256) as u8);
}

/// A decaying amplitude: one step multiplies by `num / 65536`.
fn decay(amp: u64, num: u64) -> (r: u64)
    requires
        amp <= 32767,
        num <= 65536,
    ensures
        r <= amp,
{
    assert(amp * num <= 32767 * 65536) by (nonlinear_arith)
        requires amp <= 32767 && num <= 65536;
    let p = amp * num;
    let r = p / 65536;
    proof {
        assert(amp * num <= amp * 65536) by (nonlinear_arith)
            requires num <= 65536 && amp >= 0;
        vstd::arithmetic::div_mod::lemma_div_is_ordered(p as int, amp * 65536, 65536);
        assert(amp * 65536 == 65536 * amp) by (nonlinear_arith);
        vstd::arithmetic::div_mod::lemma_div_multiples_vanish(amp as int, 65536);
    }
    r
}

/// A single decaying tone: `samples` samples of a sine at `phase_step`
/// milliradians per sample, starting at amplitude `start_amp` (out of
/// 32767) and decaying by `decay_num / 65536` each sample, wrapped in a
/// WAV container at `SOUND_SAMPLE_RATE`.
fn synth_tone(samples: usize, phase_step: i64, start_amp: u64, decay_num: u64) -> (out: Vec<u8>)
    requires
        samples <= 1000000,
        0 <= phase_step <= 6283,
        start_amp <= 32767,
        decay_num <= 65536,
    ensures
        out@.len() == 44 + 2 * samples,
        out@.subrange(0, 44) == wav_header_spec(2 * samples as int, SOUND_SAMPLE_RATE as int),
{
    let mut data: Vec<u8> = Vec::new();
    let mut phase: i64 = 0;
    let mut amp: u64 = start_amp;
    let mut i: usize = 0;
    while i < samples
        invariant
            i <= samples,
            samples <= 1000000,
            data@.len() == 2 * i,
            0 <= phase <= 6283,
            0 <= phase_step <= 6283,
            amp <= 32767,
            decay_num <= 65536,
        decreases samples - i,
    {
        let s = sin_circle(phase);
        let val = mul_frac_milli(amp as i64, s);
        push_sample(&mut data, val);
        phase = phase + phase_step;
        if phase > 6283 {
            phase = phase - 6284;
        }
        amp = decay(amp, decay_num);
        i = i + 1;
    }
    create_wav_file(&data, SOUND_SAMPLE_RATE)
}

/// The paddle-hit effect: a short bright blip, 100 ms of samples.
pub fn generate_paddle_hit_sound() -> (out: Vec<u8>)
    ensures
        out@.len() == 44 + 2 * 4410,
        out@.subrange(0, 44) == wav_header_spec(8820 as int, SOUND_SAMPLE_RATE as int),
{
    synth_tone(4410, 160, 9830, 65524)
}

/// The wall-hit effect: a shorter, lower thud, 80 ms of samples.
pub fn generate_wall_hit_sound() -> (out: Vec<u8>)
    ensures
        out@.len() == 44 + 2 * 3528,
        out@.subrange(0, 44) == wav_header_spec(7056 as int, SOUND_SAMPLE_RATE as int),
{
    synth_tone(3528, 64, 8192, 65518)
}

/// The score effect: a longer, slowly fading chime, 400 ms of samples.
pub fn generate_score_sound() -> (out: Vec<u8>)
    ensures
        out@.len() == 44 + 2 * 17640,
        out@.subrange(0, 44) == wav_header_spec(35280 as int, SOUND_SAMPLE_RATE as int),
{
    synth_tone(17640, 75, 14745, 65533)
}

} // verus!
