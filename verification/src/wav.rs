use vstd::prelude::*;

verus! {

/// Samples per second of every generated sound.
pub const SAMPLE_RATE: u32 = 44100;

/// The two little-endian bytes of a 16-bit value.
pub open spec fn le16(x: u16) -> Seq<u8> {
    seq![(x % 256) as u8, (x / 256) as u8]
}

/// The four little-endian bytes of the low 32 bits of `x`.
pub open spec fn le32(x: nat) -> Seq<u8> {
    seq![
        (x % 256) as u8,
        ((x / 256) % 256) as u8,
        ((x / 65536) % 256) as u8,
        ((x / 16777216) % 256) as u8,
    ]
}

/// The 44-byte header of a RIFF/WAVE file holding `data_size` bytes of
/// 16-bit mono PCM at [`SAMPLE_RATE`]: the tags `RIFF`, `WAVE`, `fmt ` and
/// `data` are written as their ASCII codes.
pub open spec fn wav_header(data_size: nat) -> Seq<u8> {
    seq![82u8, 73u8, 70u8, 70u8] + le32(36 + data_size) + seq![87u8, 65u8, 86u8, 69u8] + seq![
        102u8,
        109u8,
        116u8,
        32u8,
    ] + le32(16) + le16(1) + le16(1) + le32(SAMPLE_RATE as nat) + le32(SAMPLE_RATE as nat * 2)
        + le16(2) + le16(16) + seq![100u8, 97u8, 116u8, 97u8] + le32(data_size)
}

/// The samples as 16-bit little-endian two's-complement bytes.
pub open spec fn pcm_bytes(s: Seq<i16>) -> Seq<u8> {
    Seq::new(
        2 * s.len(),
        |k: int|
            if k % 2 == 0 {
                ((s[k / 2] as u16) % 256) as u8
            } else {
                ((s[k / 2] as u16) / 256) as u8
            },
    )
}

/// The number of samples in a sound of `duration_ms` milliseconds.
pub fn sample_count(duration_ms: u32) -> (n: usize)
    requires
        SAMPLE_RATE * duration_ms <= u32::MAX,
    ensures
        n == (SAMPLE_RATE * duration_ms) / 1000,
{
    (SAMPLE_RATE * duration_ms / 1000) as usize
}

fn push_le16(buf: &mut Vec<u8>, x: u16)
    ensures
        final(buf)@ == old(buf)@ + le16(x),
{
    buf.push((x % 256) as u8);
    buf.push((x / 256) as u8);
}

fn push_le32(buf: &mut Vec<u8>, x: u64)
    ensures
        final(buf)@ == old(buf)@ + le32(x as nat),
{
    buf.push((x % 256) as u8);
    buf.push(((x / 256) % 256) as u8);
    buf.push(((x / 65536) % 256) as u8);
    buf.push(((x / 16777216) % 256) as u8);
}

fn push_tag(buf: &mut Vec<u8>, a: u8, b: u8, c: u8, d: u8)
    ensures
        final(buf)@ == old(buf)@ + seq![a, b, c, d],
{
    buf.push(a);
    buf.push(b);
    buf.push(c);
    buf.push(d);
}

/// A complete WAVE file (44100 Hz, mono, 16-bit PCM) that holds `samples`.
/// The size fields are written modulo 2^32, as a 32-bit field holds them.
pub fn make_wav(samples: &Vec<i16>) -> (w: Vec<u8>)
    requires
        44 + 2 * samples.len() <= usize::MAX,
    ensures
        w@ == wav_header(2 * samples.len() as nat) + pcm_bytes(samples@),
        w@.len() == 44 + 2 * samples.len(),
{
    let n = samples.len();
    let data_size: usize = n * 2;
    let mut buf: Vec<u8> = Vec::new();
    push_tag(&mut buf, 82u8, 73u8, 70u8, 70u8);
    push_le32(&mut buf, 36 + data_size as u64);
    push_tag(&mut buf, 87u8, 65u8, 86u8, 69u8);
    push_tag(&mut buf, 102u8, 109u8, 116u8, 32u8);
    push_le32(&mut buf, 16);
    push_le16(&mut buf, 1);
    push_le16(&mut buf, 1);
    push_le32(&mut buf, SAMPLE_RATE as u64);
    push_le32(&mut buf, SAMPLE_RATE as u64 * 2);
    push_le16(&mut buf, 2);
    push_le16(&mut buf, 16);
    push_tag(&mut buf, 100u8, 97u8, 116u8, 97u8);
    push_le32(&mut buf, data_size as u64);
    let ghost header = wav_header(data_size as nat);
    assert(buf@ =~= header);
    assert(pcm_bytes(samples@.take(0)) =~= Seq::<u8>::empty());
    let mut i: usize = 0;
    while i < n
        invariant
            n == samples@.len(),
            i <= n,
            header == wav_header(2 * n as nat),
            buf@ == header + pcm_bytes(samples@.take(i as int)),
        decreases n - i,
    {
        let u: u16 = samples[i] as u16;
        let ghost before = buf@;
        buf.push((u % 256) as u8);
        buf.push((u / 256) as u8);
        assert(pcm_bytes(samples@.take(i + 1)) =~= pcm_bytes(samples@.take(i as int)) + le16(u));
        assert(buf@ =~= before + le16(u));
        i += 1;
    }
    assert(samples@.take(n as int) =~= samples@);
    buf
}

/// A sound that begins with the samples of a shorter one begins with its
/// bytes: the PCM bytes of a prefix of the samples are a prefix of the PCM
/// bytes of all of them.
pub proof fn lemma_pcm_prefix(s1: Seq<i16>, s2: Seq<i16>)
    requires
        s1.len() <= s2.len(),
        s1 == s2.subrange(0, s1.len() as int),
    ensures
        pcm_bytes(s1) == pcm_bytes(s2).subrange(0, 2 * s1.len() as int),
{
    assert forall|k: int| 0 <= k < 2 * s1.len() implies pcm_bytes(s1)[k] == pcm_bytes(s2)[k] by {
        assert(s1[k / 2] == s2[k / 2]);
    }
    assert(pcm_bytes(s1) =~= pcm_bytes(s2).subrange(0, 2 * s1.len() as int));
}

} // verus!
