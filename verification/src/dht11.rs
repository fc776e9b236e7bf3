//! The DHT11 protocol: timing each level of the data line, telling a one
//! from a zero by the pulse widths, assembling the 40-bit frame into five
//! bytes and checking its checksum. Driving and sampling the line stays with
//! the caller.
use vstd::prelude::*;

verus! {

/// Polls of the data line (one microsecond apart) after which a level that
/// does not change counts as a timeout.
pub const TIMEOUT_US: u16 = 1_000;

/// Why a measurement failed.
#[derive(PartialEq, Eq, Structural, Clone, Copy, Debug)]
pub enum Dht11Error {
    /// The line kept one level for `TIMEOUT_US` polls.
    Timeout,
    /// The fifth byte is not the sum of the first four.
    Checksum,
}

/// One poll at an unchanged level: the count goes up by one, and reaching
/// `TIMEOUT_US` is a timeout.
pub open spec fn spec_level_step(count: u16) -> Result<u16, Dht11Error> {
    if count + 1 < TIMEOUT_US {
        Ok((count + 1) as u16)
    } else {
        Err(Dht11Error::Timeout)
    }
}

/// The outcome of timing a level from `count` when the line keeps it for
/// `remaining` more polls and then changes: each poll goes through
/// `spec_level_step`, and the first timeout ends the timing.
pub open spec fn timer_run(count: u16, remaining: nat) -> Result<u16, Dht11Error>
    decreases remaining,
{
    if remaining == 0 {
        Ok(count)
    } else {
        match spec_level_step(count) {
            Ok(c) => timer_run(c, (remaining - 1) as nat),
            Err(e) => Err(e),
        }
    }
}

/// How many one-microsecond polls the timing waits through before it ends.
pub open spec fn timer_polls(count: u16, remaining: nat) -> nat
    decreases remaining,
{
    if remaining == 0 {
        0
    } else {
        match spec_level_step(count) {
            Ok(c) => 1 + timer_polls(c, (remaining - 1) as nat),
            Err(_) => 1,
        }
    }
}

/// Timing a level that the line keeps for `n` polls gives `n` when `n` is
/// below `TIMEOUT_US`, and a timeout otherwise; it waits `n` polls, or
/// exactly `TIMEOUT_US` when it times out.
pub proof fn lemma_level_time(n: nat)
    ensures
        n < TIMEOUT_US ==> timer_run(0, n) == Ok::<u16, Dht11Error>(n as u16),
        n < TIMEOUT_US ==> timer_polls(0, n) == n,
        n >= TIMEOUT_US ==> timer_run(0, n) == Err::<u16, Dht11Error>(Dht11Error::Timeout),
        n >= TIMEOUT_US ==> timer_polls(0, n) == TIMEOUT_US,
{
    lemma_level_time_from(0, n);
}

proof fn lemma_level_time_from(count: u16, n: nat)
    requires
        count < TIMEOUT_US,
    ensures
        count + n < TIMEOUT_US ==> timer_run(count, n) == Ok::<u16, Dht11Error>((count + n) as u16),
        count + n < TIMEOUT_US ==> timer_polls(count, n) == n,
        count + n >= TIMEOUT_US ==> timer_run(count, n) == Err::<u16, Dht11Error>(
            Dht11Error::Timeout,
        ),
        count + n >= TIMEOUT_US ==> timer_polls(count, n) == TIMEOUT_US - count,
    decreases n,
{
    if n > 0 && count + 1 < TIMEOUT_US {
        lemma_level_time_from((count + 1) as u16, (n - 1) as nat);
    }
}

/// Counts one more poll at an unchanged level, failing once the count
/// reaches `TIMEOUT_US`.
pub fn level_time_step(count: u16) -> (r: Result<u16, Dht11Error>)
    requires
        count < TIMEOUT_US,
    ensures
        r == spec_level_step(count),
{
    let count = count + 1;
    if count < TIMEOUT_US {
        Ok(count)
    } else {
        Err(Dht11Error::Timeout)
    }
}

/// A bit is a one when the line stayed high longer than it stayed low.
pub fn read_bit(low: u16, high: u16) -> (bit: bool)
    ensures
        bit == (high > low),
{
    high > low
}

/// The value of eight bits, most significant first.
pub open spec fn byte_of(bits: Seq<bool>) -> int
    decreases bits.len(),
{
    if bits.len() == 0 {
        0
    } else {
        2 * byte_of(bits.drop_last()) + if bits.last() { 1int } else { 0int }
    }
}

/// Byte `j` of a frame: the value of bits `8 * j` to `8 * j + 7`.
pub open spec fn frame_byte(bits: Seq<bool>, j: int) -> int {
    byte_of(bits.subrange(8 * j, 8 * j + 8))
}

proof fn lemma_byte_of_bound(bits: Seq<bool>)
    ensures
        0 <= byte_of(bits),
        byte_of(bits) < vstd::arithmetic::power2::pow2(bits.len()),
    decreases bits.len(),
{
    if bits.len() > 0 {
        lemma_byte_of_bound(bits.drop_last());
        vstd::arithmetic::power2::lemma_pow2_unfold(bits.len());
    } else {
        vstd::arithmetic::power2::lemma2_to64();
    }
}

/// Assembles the 40 bits of a frame into five bytes, most significant bit
/// first.
pub fn assemble_frame(bits: &Vec<bool>) -> (data: [u8; 5])
    requires
        bits@.len() == 40,
    ensures
        forall|j: int| 0 <= j < 5 ==> data@[j] as int == #[trigger] frame_byte(bits@, j),
{
    let mut data: [u8; 5] = [0u8; 5];
    let mut i: usize = 0;
    while i < 40
        invariant
            bits@.len() == 40,
            0 <= i <= 40,
            forall|j: int| 0 <= j < i / 8 ==> data@[j] as int == #[trigger] frame_byte(bits@, j),
            i % 8 != 0 ==> data@[(i / 8) as int] as int == byte_of(
                bits@.subrange(8 * (i / 8) as int, i as int),
            ),
            i % 8 == 0 && i < 40 ==> data@[(i / 8) as int] == 0,
            forall|j: int| i / 8 < j < 5 ==> data@[j] == 0,
        decreases 40 - i,
    {
        let j = i / 8;
        let ghost start = 8 * j as int;
        let ghost prefix = bits@.subrange(start, i as int);
        let ghost next = bits@.subrange(start, i + 1);
        assert(next.drop_last() =~= prefix);
        proof {
            if i % 8 == 0 {
                assert(prefix =~= Seq::<bool>::empty());
            }
            lemma_byte_of_bound(prefix);
            vstd::arithmetic::power2::lemma2_to64();
            assert(prefix.len() == i % 8);
            if prefix.len() < 7 {
                vstd::arithmetic::power2::lemma_pow2_strictly_increases(prefix.len(), 7);
            }
        }
        let old_byte = data[j];
        assert(old_byte as int == byte_of(prefix));
        assert(old_byte < 128);
        let mut byte: u8 = old_byte << 1;
        assert(byte == 2 * old_byte) by (bit_vector)
            requires
                byte == old_byte << 1,
                old_byte < 128,
        ;
        if bits[i] {
            assert(byte | 1 == byte + 1) by (bit_vector)
                requires
                    byte == 2 * old_byte,
                    old_byte < 128,
            ;
            byte = byte | 1;
        }
        data[j] = byte;
        assert(byte as int == byte_of(next));
        i = i + 1;
    }
    data
}

/// The eight bits of a byte, most significant first.
pub open spec fn bits_of_byte(b: u8) -> Seq<bool> {
    Seq::new(8, |k: int| (b >> ((7 - k) as u8)) & 1 == 1)
}

/// The 40 bits the sensor sends for five bytes: each byte in turn, most
/// significant bit first.
pub open spec fn frame_bits(data: Seq<u8>) -> Seq<bool> {
    Seq::new(40, |i: int| bits_of_byte(data[i / 8])[i % 8])
}

proof fn lemma_byte_prefix(b: u8, n: int)
    requires
        0 <= n <= 8,
    ensures
        byte_of(bits_of_byte(b).take(n)) == (b >> ((8 - n) as u8)) as int,
    decreases n,
{
    if n == 0 {
        assert(bits_of_byte(b).take(0) =~= Seq::<bool>::empty());
        assert(b >> 8u8 == 0) by (bit_vector);
    } else {
        lemma_byte_prefix(b, n - 1);
        assert(bits_of_byte(b).take(n).drop_last() =~= bits_of_byte(b).take(n - 1));
        let s: u8 = (8 - n) as u8;
        assert((b >> s) == 2 * (b >> (s + 1) as u8) + ((b >> s) & 1)) by (bit_vector)
            requires
                s < 8,
        ;
        assert((b >> s) & 1 == 1 || (b >> s) & 1 == 0) by (bit_vector);
    }
}

/// Assembling is the inverse of the sensor's serialisation: the bits sent for
/// five bytes are read back as those five bytes.
pub proof fn lemma_frame_round_trip(data: Seq<u8>)
    requires
        data.len() == 5,
    ensures
        forall|j: int| 0 <= j < 5 ==> #[trigger] frame_byte(frame_bits(data), j) == data[j] as int,
{
    assert forall|j: int| 0 <= j < 5 implies #[trigger] frame_byte(frame_bits(data), j)
        == data[j] as int by {
        assert(frame_bits(data).subrange(8 * j, 8 * j + 8) =~= bits_of_byte(data[j]));
        lemma_byte_prefix(data[j], 8);
        assert(bits_of_byte(data[j]).take(8) =~= bits_of_byte(data[j]));
        let b = data[j];
        assert(b >> 0u8 == b) by (bit_vector);
    }
}

/// The raw content of a frame: humidity and temperature, each as an integral
/// part and a tenths part.
#[derive(PartialEq, Eq, Structural, Clone, Copy, Debug)]
pub struct Reading {
    pub humidity: u8,
    pub humidity_tenths: u8,
    pub temperature: u8,
    pub temperature_tenths: u8,
}

/// Decodes a 40-bit frame: its first four bytes are the humidity and the
/// temperature, each an integral part and a tenths part, if the fifth byte is
/// their sum. The sum is taken in a byte, so the four bytes must not add up
/// beyond 255.
pub fn decode_frame(bits: &Vec<bool>) -> (r: Result<Reading, Dht11Error>)
    requires
        bits@.len() == 40,
        frame_byte(bits@, 0) + frame_byte(bits@, 1) + frame_byte(bits@, 2) + frame_byte(bits@, 3)
            <= 255,
    ensures
        r is Err <==> frame_byte(bits@, 0) + frame_byte(bits@, 1) + frame_byte(bits@, 2)
            + frame_byte(bits@, 3) != frame_byte(bits@, 4),
        r is Err ==> r == Err::<Reading, Dht11Error>(Dht11Error::Checksum),
        r matches Ok(m) ==> m.humidity == frame_byte(bits@, 0) && m.humidity_tenths
            == frame_byte(bits@, 1) && m.temperature == frame_byte(bits@, 2)
            && m.temperature_tenths == frame_byte(bits@, 3),
{
    let data = assemble_frame(bits);
    assert(data@[0] as int == frame_byte(bits@, 0));
    assert(data@[1] as int == frame_byte(bits@, 1));
    assert(data@[2] as int == frame_byte(bits@, 2));
    assert(data@[3] as int == frame_byte(bits@, 3));
    assert(data@[4] as int == frame_byte(bits@, 4));
    if data[0] + data[1] + data[2] + data[3] != data[4] {
        return Err(Dht11Error::Checksum);
    }
    Ok(Reading {
        humidity: data[0],
        humidity_tenths: data[1],
        temperature: data[2],
        temperature_tenths: data[3],
    })
}

} // verus!
