//! Bit-field codec of the 32-bit event record.
//!
//! Layout: bit 31 marks a special record (overflow or marker), bits 25 to 30
//! hold the channel, and the low 25 bits hold either the T2 arrival tag or,
//! in T3 mode, a 15-bit arrival tag (bits 10 to 24) above a 10-bit sync
//! counter (bits 0 to 9). The record carries no mode; the caller knows it.
use vstd::prelude::*;

use crate::consts::{CHANNEL, HISTOTAG_T2, HISTOTAG_T3, SPECIAL, SYNCTAG};

verus! {

/// The special-marker flag of a record.
pub open spec fn special_bit(v: u32) -> bool {
    (v >> 31u32) == 1u32
}

/// The 6-bit channel field of a record.
pub open spec fn channel_bits(v: u32) -> u32 {
    (v >> 25u32) & 0x3fu32
}

/// The 25-bit arrival tag of a T2 record.
pub open spec fn t2_arrival_bits(v: u32) -> u32 {
    v & 0x01ff_ffffu32
}

/// The 15-bit arrival tag of a T3 record.
pub open spec fn t3_arrival_bits(v: u32) -> u32 {
    (v >> 10u32) & 0x7fffu32
}

/// The 10-bit sync counter of a T3 record.
pub open spec fn sync_bits(v: u32) -> u32 {
    v & 0x3ffu32
}

/// The flag as the top bit of a record.
pub open spec fn special_field(special: bool) -> u32 {
    if special {
        0x8000_0000u32
    } else {
        0u32
    }
}

/// The T2 record with the given fields.
pub open spec fn t2_record(special: bool, channel: u32, arrival: u32) -> u32 {
    special_field(special) | (channel << 25u32) | arrival
}

/// The T3 record with the given fields.
pub open spec fn t3_record(special: bool, channel: u32, arrival: u32, sync: u32) -> u32 {
    special_field(special) | (channel << 25u32) | (arrival << 10u32) | sync
}

/// Sync rollover or marker bit
#[inline]
pub fn photon_special(photon: u32) -> (r: bool)
    ensures
        r == special_bit(photon),
{
    assert((photon & 0x8000_0000u32 != 0) == ((photon >> 31u32) == 1u32)) by (bit_vector);
    (photon & SPECIAL) != 0
}

/// The six bits below the special bit, as a channel index
#[inline]
pub fn photon_to_channel(photon: u32) -> (r: u8)
    ensures
        r as u32 == channel_bits(photon),
        r < 64,
{
    assert((photon & 0x7e00_0000u32) >> 25u32 == (photon >> 25u32) & 0x3fu32) by (bit_vector);
    assert((photon >> 25u32) & 0x3fu32 < 64) by (bit_vector);
    ((photon & CHANNEL) >> 25u32) as u8
}

/// The 25 lowest bits, the arrival tag in T2 mode
#[inline]
pub fn photon_to_arrival_t2(photon: u32) -> (r: u32)
    ensures
        r == t2_arrival_bits(photon),
{
    photon & HISTOTAG_T2
}

/// Bits 10 to 24, the 15-bit arrival tag in T3 mode
#[inline]
pub fn photon_to_arrival_t3(photon: u32) -> (r: u16)
    ensures
        r as u32 == t3_arrival_bits(photon),
        r < 0x8000,
{
    assert((photon & 0x01ff_fc00u32) >> 10u32 == (photon >> 10u32) & 0x7fffu32) by (bit_vector);
    assert((photon >> 10u32) & 0x7fffu32 < 0x8000) by (bit_vector);
    ((photon & HISTOTAG_T3) >> 10u32) as u16
}

/// The 10 lowest bits, the sync counter in T3 mode
#[inline]
pub fn photon_to_sync_counter(photon: u32) -> (r: u16)
    ensures
        r as u32 == sync_bits(photon),
        r < 0x400,
{
    assert(photon & 0x3ffu32 < 0x400) by (bit_vector);
    (photon & SYNCTAG) as u16
}

/// Builds a T2 record from its fields.
pub fn encode_t2(special: bool, channel: u8, arrival: u32) -> (r: u32)
    requires
        channel < 64,
        arrival < 0x0200_0000,
    ensures
        r == t2_record(special, channel as u32, arrival),
        special_bit(r) == special,
        channel_bits(r) == channel as u32,
        t2_arrival_bits(r) == arrival,
{
    let c = channel as u32;
    let top: u32 = if special { SPECIAL } else { 0 };
    proof {
        lemma_t2_fields(special, c, arrival);
    }
    top | (c << 25u32) | arrival
}

/// Builds a T3 record from its fields.
pub fn encode_t3(special: bool, channel: u8, arrival: u16, sync: u16) -> (r: u32)
    requires
        channel < 64,
        arrival < 0x8000,
        sync < 0x400,
    ensures
        r == t3_record(special, channel as u32, arrival as u32, sync as u32),
        special_bit(r) == special,
        channel_bits(r) == channel as u32,
        t3_arrival_bits(r) == arrival as u32,
        sync_bits(r) == sync as u32,
{
    let c = channel as u32;
    let a = arrival as u32;
    let s = sync as u32;
    let top: u32 = if special { SPECIAL } else { 0 };
    proof {
        lemma_t3_fields(special, c, a, s);
    }
    top | (c << 25u32) | (a << 10u32) | s
}

/// Decoding a T2 record built from in-range fields gives the fields back.
pub proof fn lemma_t2_fields(special: bool, channel: u32, arrival: u32)
    requires
        channel < 64,
        arrival < 0x0200_0000,
    ensures
        special_bit(t2_record(special, channel, arrival)) == special,
        channel_bits(t2_record(special, channel, arrival)) == channel,
        t2_arrival_bits(t2_record(special, channel, arrival)) == arrival,
{
    let top = special_field(special);
    assert(top == 0u32 || top == 0x8000_0000u32);
    assert(((top | (channel << 25u32) | arrival) >> 31u32 == 1u32) == (top == 0x8000_0000u32))
        by (bit_vector)
        requires
            top == 0u32 || top == 0x8000_0000u32,
            channel < 64,
            arrival < 0x0200_0000,
    ;
    assert(((top | (channel << 25u32) | arrival) >> 25u32) & 0x3fu32 == channel) by (bit_vector)
        requires
            top == 0u32 || top == 0x8000_0000u32,
            channel < 64,
            arrival < 0x0200_0000,
    ;
    assert((top | (channel << 25u32) | arrival) & 0x01ff_ffffu32 == arrival) by (bit_vector)
        requires
            top == 0u32 || top == 0x8000_0000u32,
            channel < 64,
            arrival < 0x0200_0000,
    ;
}

/// Decoding a T3 record built from in-range fields gives the fields back.
pub proof fn lemma_t3_fields(special: bool, channel: u32, arrival: u32, sync: u32)
    requires
        channel < 64,
        arrival < 0x8000,
        sync < 0x400,
    ensures
        special_bit(t3_record(special, channel, arrival, sync)) == special,
        channel_bits(t3_record(special, channel, arrival, sync)) == channel,
        t3_arrival_bits(t3_record(special, channel, arrival, sync)) == arrival,
        sync_bits(t3_record(special, channel, arrival, sync)) == sync,
{
    let top = special_field(special);
    assert(top == 0u32 || top == 0x8000_0000u32);
    assert(((top | (channel << 25u32) | (arrival << 10u32) | sync) >> 31u32 == 1u32) == (top
        == 0x8000_0000u32)) by (bit_vector)
        requires
            top == 0u32 || top == 0x8000_0000u32,
            channel < 64,
            arrival < 0x8000,
            sync < 0x400,
    ;
    assert(((top | (channel << 25u32) | (arrival << 10u32) | sync) >> 25u32) & 0x3fu32 == channel)
        by (bit_vector)
        requires
            top == 0u32 || top == 0x8000_0000u32,
            channel < 64,
            arrival < 0x8000,
            sync < 0x400,
    ;
    assert(((top | (channel << 25u32) | (arrival << 10u32) | sync) >> 10u32) & 0x7fffu32 == arrival)
        by (bit_vector)
        requires
            top == 0u32 || top == 0x8000_0000u32,
            channel < 64,
            arrival < 0x8000,
            sync < 0x400,
    ;
    assert((top | (channel << 25u32) | (arrival << 10u32) | sync) & 0x3ffu32 == sync)
        by (bit_vector)
        requires
            top == 0u32 || top == 0x8000_0000u32,
            channel < 64,
            arrival < 0x8000,
            sync < 0x400,
    ;
}

/// Round trip in T2 mode: every 32-bit record is rebuilt exactly from its
/// special flag, channel and T2 arrival tag.
pub proof fn lemma_t2_round_trip(v: u32)
    ensures
        t2_record(special_bit(v), channel_bits(v), t2_arrival_bits(v)) == v,
{
    let top = special_field(special_bit(v));
    assert(top == (if (v >> 31u32) == 1u32 { 0x8000_0000u32 } else { 0u32 }));
    assert((if (v >> 31u32) == 1u32 { 0x8000_0000u32 } else { 0u32 }) | (((v >> 25u32) & 0x3fu32)
        << 25u32) | (v & 0x01ff_ffffu32) == v) by (bit_vector);
}

/// Round trip in T3 mode: every 32-bit record is rebuilt exactly from its
/// special flag, channel, T3 arrival tag and sync counter.
pub proof fn lemma_t3_round_trip(v: u32)
    ensures
        t3_record(special_bit(v), channel_bits(v), t3_arrival_bits(v), sync_bits(v)) == v,
{
    let top = special_field(special_bit(v));
    assert(top == (if (v >> 31u32) == 1u32 { 0x8000_0000u32 } else { 0u32 }));
    assert((if (v >> 31u32) == 1u32 { 0x8000_0000u32 } else { 0u32 }) | (((v >> 25u32) & 0x3fu32)
        << 25u32) | (((v >> 10u32) & 0x7fffu32) << 10u32) | (v & 0x3ffu32) == v) by (bit_vector);
}

} // verus!
