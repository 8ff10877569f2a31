//! The pulse encoder: a packed colour word becomes the pulse codes that a
//! remote-control transmitter sends down the one-wire line.
//!
//! Every bit of the colour is one pulse code: the line is held high, then
//! low, and the length of the high phase tells a 1 from a 0. A frame is the
//! 24 data bits, most significant first, closed by one empty code that tells
//! the transmitter to stop and leave the line idle.
//!
//! Durations are given in nanoseconds and converted to ticks of the
//! transmitter clock by integer division, first of 1000 by the clock
//! frequency in MHz, then of the duration by that tick length. Both
//! divisions truncate, and the truncation is deliberate: at 80 MHz a tick
//! counts as 12 ns, a 1 bit is high for 53 ticks and low for 50, a 0 bit is
//! high for 26 ticks and low for 77. Both bits therefore last 103 ticks,
//! which misses the nominal period by less than two ticks (see
//! [`lemma_period_within_truncation`]); the LED tolerates far more.

use crate::color::RGB;
use vstd::prelude::*;

verus! {

/// Nominal length of one bit on the wire, in nanoseconds.
pub const PERIOD_RMT: u32 = 1250;

/// High phase of a 0 bit, in nanoseconds.
pub const LED_T0H: u32 = 320;

/// Low phase of a 0 bit, in nanoseconds.
pub const LED_T0L: u32 = PERIOD_RMT - LED_T0H;

/// High phase of a 1 bit, in nanoseconds.
pub const LED_T1H: u32 = 640;

/// Low phase of a 1 bit, in nanoseconds.
pub const LED_T1L: u32 = PERIOD_RMT - LED_T1H;

/// Frequency of the clock that times the pulses, in MHz.
pub const APB_FREQUENCY_MHZ: u32 = 80;

/// Number of colour bits in a frame.
pub const DATA_BITS: usize = 24;

/// Number of pulse codes in a frame: the colour bits and the end marker.
pub const FRAME_LEN: usize = 25;

/// Length of one clock tick in whole nanoseconds.
pub open spec fn tick_ns() -> int {
    1000int / (APB_FREQUENCY_MHZ as int)
}

/// Number of whole clock ticks in a duration given in nanoseconds.
pub open spec fn ticks(duration_ns: int) -> int {
    duration_ns / tick_ns()
}

/// One half of a pulse code: a level in bit 15 above a 15-bit length.
pub open spec fn pulse_half(level: bool, length: int) -> int {
    (if level { 0x8000int } else { 0int }) + length % 0x8000
}

/// A pulse code as a number: the first interval in the low half of the
/// word, the second interval in the high half.
pub open spec fn pulse_word(level1: bool, length1: int, level2: bool, length2: int) -> int {
    pulse_half(level1, length1) + 0x1_0000 * pulse_half(level2, length2)
}

/// Level of the line during the first interval of a pulse code.
pub open spec fn first_level(code: u32) -> bool {
    (code as int / 0x8000) % 2 == 1
}

/// Length in ticks of the first interval of a pulse code.
pub open spec fn first_length(code: u32) -> int {
    code as int % 0x8000
}

/// Level of the line during the second interval of a pulse code.
pub open spec fn second_level(code: u32) -> bool {
    (code as int / 0x8000_0000) % 2 == 1
}

/// Length in ticks of the second interval of a pulse code.
pub open spec fn second_length(code: u32) -> int {
    (code as int / 0x1_0000) % 0x8000
}

/// The pulse code of a 1 bit: high for T1H, then low for T1L.
pub open spec fn bit_1_code() -> u32 {
    pulse_word(true, ticks(LED_T1H as int), false, ticks(LED_T1L as int)) as u32
}

/// The pulse code of a 0 bit: high for T0H, then low for T0L.
pub open spec fn bit_0_code() -> u32 {
    pulse_word(true, ticks(LED_T0H as int), false, ticks(LED_T0L as int)) as u32
}

/// The end marker: both intervals of length zero.
pub open spec fn end_code() -> u32 {
    0
}

/// Whether the bit sent at position `index` of a frame is a 1. Position 0
/// is bit 23 of the word, position 23 is bit 0.
pub open spec fn data_bit(word: u32, index: int) -> bool
    recommends
        0 <= index < DATA_BITS,
{
    word & (1u32 << ((DATA_BITS - 1 - index) as u32)) != 0
}

/// The frame of a colour word: one code per bit, then the end marker.
pub open spec fn encoded(word: u32) -> Seq<u32> {
    Seq::new(
        FRAME_LEN as nat,
        |i: int|
            if i < DATA_BITS {
                if data_bit(word, i) {
                    bit_1_code()
                } else {
                    bit_0_code()
                }
            } else {
                end_code()
            },
    )
}

/// The green field of a colour word, in its place: bits 16 to 23.
pub open spec fn green_field(word: u32) -> int {
    (word as int / 0x1_0000 % 0x100) * 0x1_0000
}

/// The red field of a colour word, in its place: bits 8 to 15.
pub open spec fn red_field(word: u32) -> int {
    (word as int / 0x100 % 0x100) * 0x100
}

/// The blue field of a colour word: bits 0 to 7.
pub open spec fn blue_field(word: u32) -> int {
    word as int % 0x100
}

/// Whether the bit at position `index` of a channel is a 1, counted from
/// the most significant bit.
pub open spec fn channel_bit(channel: u8, index: int) -> bool
    recommends
        0 <= index < 8,
{
    channel & (1u8 << ((7 - index) as u8)) != 0
}

/// Builds a pulse code from two intervals, each a line level (`true` is
/// high) and a length in ticks. Only the low 15 bits of a length are kept.
pub fn pulse_code(level1: bool, length1: u16, level2: bool, length2: u16) -> (code: u32)
    ensures
        code == pulse_word(level1, length1 as int, level2, length2 as int),
{
    let flag1: u32 = if level1 { 0x8000 } else { 0 };
    let flag2: u32 = if level2 { 0x8000 } else { 0 };
    let wide1: u32 = length1 as u32;
    let wide2: u32 = length2 as u32;
    let first: u32 = flag1 | (wide1 & 0x7fff);
    let second: u32 = flag2 | (wide2 & 0x7fff);
    assert(first == flag1 + wide1 % 0x8000 && first < 0x1_0000) by (bit_vector)
        requires
            first == flag1 | (wide1 & 0x7fff),
            flag1 == 0x8000 || flag1 == 0,
    ;
    assert(second == flag2 + wide2 % 0x8000 && second < 0x1_0000) by (bit_vector)
        requires
            second == flag2 | (wide2 & 0x7fff),
            flag2 == 0x8000 || flag2 == 0,
    ;
    assert(first | (second << 16) == first + 0x1_0000 * second) by (bit_vector)
        requires
            first < 0x1_0000,
            second < 0x1_0000,
    ;
    first | (second << 16)
}

/// The empty pulse code that ends a frame.
pub fn pulse_end() -> (code: u32)
    ensures
        code == end_code(),
{
    0
}

/// A 24-bit colour word as it is handed to the LED.
pub trait LedSerializable: Sized {
    /// The frame that transmits this word.
    fn to_color(self) -> [u32; 25];

    /// The green field of the word, left in its place (bits 16 to 23).
    fn get_green(self) -> u32;

    /// The red field of the word, left in its place (bits 8 to 15).
    fn get_red(self) -> u32;

    /// The blue field of the word (bits 0 to 7).
    fn get_blue(self) -> u32;
}

impl LedSerializable for u32 {
    /// Encodes bits 23 to 0 of the word, most significant first, and closes
    /// the frame with the end marker. Bits 24 to 31 are not sent.
    fn to_color(self) -> (frame: [u32; 25])
        ensures
            frame@ == encoded(self),
    {
        let bit_1: u32 = pulse_code(
            true,
            (LED_T1H / (1000 / APB_FREQUENCY_MHZ)) as u16,
            false,
            (LED_T1L / (1000 / APB_FREQUENCY_MHZ)) as u16,
        );
        let bit_0: u32 = pulse_code(
            true,
            (LED_T0H / (1000 / APB_FREQUENCY_MHZ)) as u16,
            false,
            (LED_T0L / (1000 / APB_FREQUENCY_MHZ)) as u16,
        );
        let mut frame: [u32; 25] = [pulse_end(); 25];
        let mut i: usize = 0;
        while i < DATA_BITS
            invariant
                i <= DATA_BITS,
                bit_1 == bit_1_code(),
                bit_0 == bit_0_code(),
                forall|k: int| 0 <= k < i ==> frame@[k] == encoded(self)[k],
                forall|k: int| i <= k < FRAME_LEN ==> frame@[k] == end_code(),
            decreases DATA_BITS - i,
        {
            let shift: u32 = (DATA_BITS - 1 - i) as u32;
            frame[i] = if self & (1u32 << shift) != 0 {
                bit_1
            } else {
                bit_0
            };
            i += 1;
        }
        assert(frame@ =~= encoded(self));
        frame
    }

    fn get_green(self) -> (field: u32)
        ensures
            field == green_field(self),
    {
        assert(self & 0xff_0000 == (self / 0x1_0000 % 0x100) * 0x1_0000) by (bit_vector);
        self & 0xff_0000
    }

    fn get_red(self) -> (field: u32)
        ensures
            field == red_field(self),
    {
        assert(self & 0xff00 == (self / 0x100 % 0x100) * 0x100) by (bit_vector);
        self & 0xff00
    }

    fn get_blue(self) -> (field: u32)
        ensures
            field == blue_field(self),
    {
        assert(self & 0xff == self % 0x100) by (bit_vector);
        self & 0xff
    }
}

/// Whether a pulse code is one of the two codes that carry a colour bit.
pub open spec fn is_data_code(code: u32) -> bool {
    code == bit_1_code() || code == bit_0_code()
}

/// The bit that a data code carries: 1 for the code of a 1 bit, else 0.
pub open spec fn decoded_bit(code: u32) -> int {
    if code == bit_1_code() {
        1
    } else {
        0
    }
}

/// The number whose binary digits, most significant first, are the bits
/// that the given codes carry.
pub open spec fn assembled(codes: Seq<u32>) -> int
    decreases codes.len(),
{
    if codes.len() == 0 {
        0
    } else {
        2 * assembled(codes.drop_last()) + decoded_bit(codes.last())
    }
}

/// The colour word that a frame carries in its data codes.
pub open spec fn decoded(frame: Seq<u32>) -> int {
    assembled(frame.take(DATA_BITS as int))
}

/// The two data codes as numbers, and what their fields hold: the line is
/// high for 53 ticks and low for 50 in a 1 bit, high for 26 ticks and low
/// for 77 in a 0 bit.
pub proof fn lemma_code_values()
    ensures
        tick_ns() == 12,
        bit_1_code() == 0x0032_8035u32,
        bit_0_code() == 0x004D_801Au32,
        bit_1_code() != bit_0_code(),
        first_level(bit_1_code()) && first_length(bit_1_code()) == ticks(LED_T1H as int) == 53,
        !second_level(bit_1_code()) && second_length(bit_1_code()) == ticks(LED_T1L as int) == 50,
        first_level(bit_0_code()) && first_length(bit_0_code()) == ticks(LED_T0H as int) == 26,
        !second_level(bit_0_code()) && second_length(bit_0_code()) == ticks(LED_T0L as int) == 77,
        !is_data_code(end_code()),
        first_length(end_code()) == 0 && second_length(end_code()) == 0,
{
    assert(tick_ns() == 12);
}

/// Reading the fields of a pulse code gives back the levels and lengths it
/// was built from, for every length that fits in 15 bits.
pub proof fn lemma_pulse_fields(level1: bool, length1: u16, level2: bool, length2: u16)
    requires
        length1 < 0x8000,
        length2 < 0x8000,
    ensures
        0 <= pulse_word(level1, length1 as int, level2, length2 as int) <= u32::MAX,
        ({
            let code = pulse_word(level1, length1 as int, level2, length2 as int) as u32;
            &&& first_level(code) == level1
            &&& first_length(code) == length1
            &&& second_level(code) == level2
            &&& second_length(code) == length2
        }),
{
}

/// The data codes that come before position `count` of a frame spell the
/// top `count` bits of the 24-bit colour.
proof fn lemma_assembled_prefix(word: u32, count: nat)
    requires
        count <= DATA_BITS,
    ensures
        assembled(encoded(word).take(count as int)) == (word & 0xff_ffff) >> ((DATA_BITS
            - count) as u32),
    decreases count,
{
    let low: u32 = word & 0xff_ffff;
    let prefix = encoded(word).take(count as int);
    if count == 0 {
        assert(low >> 24u32 == 0) by (bit_vector)
            requires
                low == word & 0xff_ffff,
        ;
    } else {
        let before = (count - 1) as nat;
        lemma_assembled_prefix(word, before);
        lemma_code_values();
        assert(prefix.drop_last() =~= encoded(word).take(before as int));
        assert(prefix.last() == encoded(word)[before as int]);
        let shift: u32 = (DATA_BITS - count) as u32;
        let bit: u32 = if word & (1u32 << shift) != 0 { 1 } else { 0 };
        assert(data_bit(word, before as int) == (bit == 1));
        assert(decoded_bit(prefix.last()) == bit);
        assert(low >> shift == 2 * (low >> ((shift + 1) as u32)) + bit) by (bit_vector)
            requires
                low == word & 0xff_ffff,
                shift < 24,
                bit == if word & (1u32 << shift) != 0 { 1u32 } else { 0u32 },
        ;
    }
}

/// Encoding loses nothing: a frame has 25 codes, each of the first 24 is
/// one of the two data codes, the last is the end marker whatever the
/// colour, and reading the data codes back as bits, most significant
/// first, gives the 24-bit colour again.
pub proof fn lemma_encoding_round_trip(word: u32)
    ensures
        encoded(word).len() == FRAME_LEN,
        forall|i: int| 0 <= i < DATA_BITS ==> is_data_code(#[trigger] encoded(word)[i]),
        forall|i: int|
            0 <= i < DATA_BITS ==> (#[trigger] encoded(word)[i] == bit_1_code()) == data_bit(
                word,
                i,
            ),
        encoded(word)[DATA_BITS as int] == end_code(),
        decoded(encoded(word)) == word as int % 0x100_0000,
        word < 0x100_0000 ==> decoded(encoded(word)) == word,
{
    lemma_code_values();
    lemma_assembled_prefix(word, DATA_BITS as nat);
    assert((word & 0xff_ffff) >> 0u32 == word % 0x100_0000) by (bit_vector);
}

/// Both bit codes last equally long, and that length misses the nominal
/// bit period by less than two clock ticks: each of the two phases loses
/// less than one tick when its duration is cut down to whole ticks.
pub proof fn lemma_period_within_truncation(word: u32, index: int)
    requires
        0 <= index < DATA_BITS,
    ensures
        first_level(encoded(word)[index]),
        !second_level(encoded(word)[index]),
        first_length(encoded(word)[index]) + second_length(encoded(word)[index]) == 103,
        PERIOD_RMT - 2 * tick_ns() < (first_length(encoded(word)[index]) + second_length(
            encoded(word)[index],
        )) * tick_ns() <= PERIOD_RMT,
{
    lemma_code_values();
}


/// The fields of a packed colour are its channels, each in its place,
/// and together they make up the whole word.
pub proof fn lemma_fields_of_packed(color: RGB)
    ensures
        0 <= color.packed() < 0x100_0000,
        green_field(color.packed() as u32) == color.green * 0x1_0000,
        red_field(color.packed() as u32) == color.red * 0x100,
        blue_field(color.packed() as u32) == color.blue,
        green_field(color.packed() as u32) + red_field(color.packed() as u32) + blue_field(
            color.packed() as u32,
        ) == color.packed(),
{
}

/// A frame sends the channels of a colour in the order green, red, blue,
/// each with its most significant bit first.
pub proof fn lemma_channel_order(color: RGB, index: int)
    requires
        0 <= index < 8,
    ensures
        data_bit(color.packed() as u32, index) == channel_bit(color.green, index),
        data_bit(color.packed() as u32, 8 + index) == channel_bit(color.red, index),
        data_bit(color.packed() as u32, 16 + index) == channel_bit(color.blue, index),
{
    let green: u8 = color.green;
    let red: u8 = color.red;
    let blue: u8 = color.blue;
    let word: u32 = color.packed() as u32;
    let at: u8 = (7 - index) as u8;
    assert(word == (green as u32) * 0x1_0000 + (red as u32) * 0x100 + (blue as u32));
    assert((word & (1u32 << ((at + 16) as u32)) != 0) == (green & (1u8 << at) != 0)) by (bit_vector)
        requires
            word == (green as u32) * 0x1_0000 + (red as u32) * 0x100 + (blue as u32),
            at < 8,
    ;
    assert((word & (1u32 << ((at + 8) as u32)) != 0) == (red & (1u8 << at) != 0)) by (bit_vector)
        requires
            word == (green as u32) * 0x1_0000 + (red as u32) * 0x100 + (blue as u32),
            at < 8,
    ;
    assert((word & (1u32 << (at as u32)) != 0) == (blue & (1u8 << at) != 0)) by (bit_vector)
        requires
            word == (green as u32) * 0x1_0000 + (red as u32) * 0x100 + (blue as u32),
            at < 8,
    ;
}

} // verus!
