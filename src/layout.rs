//! Bit layout of an identifier, from the low-order bits up:
//! sequence (12 bits), node identity (6 bits), object class (4 bits),
//! milliseconds since the custom epoch (42 bits).

use vstd::prelude::*;

verus! {

/// Largest value of the 12-bit sequence field.
pub const MAX_SEQUENCE: u64 = 4095;

/// Largest value of the 6-bit node identity field.
pub const MAX_NODE_FIELD: u64 = 63;

/// Largest value of the 4-bit object-class field.
pub const MAX_CLASS: u64 = 15;

/// Largest value of the 42-bit timestamp field.
pub const MAX_TIMESTAMP: u64 = 0x3ff_ffff_ffff;

/// The identifier holding the four given fields.
pub open spec fn pack(timestamp: u64, node: u64, sequence: u64, class: u64) -> u64 {
    (timestamp << 22u64) | (class << 18u64) | (node << 12u64) | sequence
}

/// The timestamp field of an identifier.
pub open spec fn timestamp_of(id: u64) -> u64 {
    id >> 22u64
}

/// The object-class field of an identifier.
pub open spec fn class_of(id: u64) -> u64 {
    (id >> 18u64) & 0xfu64
}

/// The node identity field of an identifier.
pub open spec fn node_of(id: u64) -> u64 {
    (id >> 12u64) & 0x3fu64
}

/// The sequence field of an identifier.
pub open spec fn sequence_of(id: u64) -> u64 {
    id & 0xfffu64
}

/// Whether the four values fit their fields.
pub open spec fn fields_fit(timestamp: u64, node: u64, sequence: u64, class: u64) -> bool {
    &&& timestamp <= MAX_TIMESTAMP
    &&& node <= MAX_NODE_FIELD
    &&& sequence <= MAX_SEQUENCE
    &&& class <= MAX_CLASS
}

/// Decoding an encoded identifier gives back each of the four values.
pub proof fn lemma_round_trip(timestamp: u64, node: u64, sequence: u64, class: u64)
    requires
        fields_fit(timestamp, node, sequence, class),
    ensures
        timestamp_of(pack(timestamp, node, sequence, class)) == timestamp,
        node_of(pack(timestamp, node, sequence, class)) == node,
        sequence_of(pack(timestamp, node, sequence, class)) == sequence,
        class_of(pack(timestamp, node, sequence, class)) == class,
{
    assert(timestamp_of(pack(timestamp, node, sequence, class)) == timestamp
        && node_of(pack(timestamp, node, sequence, class)) == node
        && sequence_of(pack(timestamp, node, sequence, class)) == sequence
        && class_of(pack(timestamp, node, sequence, class)) == class) by (bit_vector)
        requires
            timestamp <= 0x3ff_ffff_ffffu64,
            node <= 63u64,
            sequence <= 4095u64,
            class <= 15u64,
    ;
}

/// Tagging an untagged identifier with a class sets the class field and
/// leaves the timestamp, node identity and sequence as they were.
pub proof fn lemma_tagging(timestamp: u64, node: u64, sequence: u64, class: u64)
    requires
        fields_fit(timestamp, node, sequence, class),
    ensures
        pack(timestamp, node, sequence, 0) | (class << 18u64) == pack(timestamp, node, sequence, class),
{
    assert(pack(timestamp, node, sequence, 0) | (class << 18u64) == pack(timestamp, node, sequence, class))
        by (bit_vector)
        requires
            timestamp <= 0x3ff_ffff_ffffu64,
            node <= 63u64,
            sequence <= 4095u64,
            class <= 15u64,
    ;
}

/// Packs the four fields into one identifier.
pub fn encode(timestamp: u64, node: u64, sequence: u64, class: u64) -> (id: u64)
    requires
        fields_fit(timestamp, node, sequence, class),
    ensures
        id == pack(timestamp, node, sequence, class),
        timestamp_of(id) == timestamp,
        node_of(id) == node,
        sequence_of(id) == sequence,
        class_of(id) == class,
{
    proof {
        lemma_round_trip(timestamp, node, sequence, class);
    }
    (timestamp << 22u64) | (class << 18u64) | (node << 12u64) | sequence
}

/// The timestamp field: milliseconds since the custom epoch.
pub fn decode_timestamp(id: u64) -> (r: u64)
    ensures
        r == timestamp_of(id),
        r <= MAX_TIMESTAMP,
{
    assert(id >> 22u64 <= 0x3ff_ffff_ffffu64) by (bit_vector);
    id >> 22u64
}

/// The object-class field.
pub fn decode_class(id: u64) -> (r: u64)
    ensures
        r == class_of(id),
        r <= MAX_CLASS,
{
    assert((id >> 18u64) & 0xfu64 <= 15u64) by (bit_vector);
    (id >> 18u64) & 0xfu64
}

/// The node identity field.
pub fn decode_node(id: u64) -> (r: u64)
    ensures
        r == node_of(id),
        r <= MAX_NODE_FIELD,
{
    assert((id >> 12u64) & 0x3fu64 <= 63u64) by (bit_vector);
    (id >> 12u64) & 0x3fu64
}

/// The sequence field.
pub fn decode_sequence(id: u64) -> (r: u64)
    ensures
        r == sequence_of(id),
        r <= MAX_SEQUENCE,
{
    assert(id & 0xfffu64 <= 4095u64) by (bit_vector);
    id & 0xfffu64
}

} // verus!
