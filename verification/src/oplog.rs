//! Replication positions in a MongoDB oplog, and their packing into the
//! integer offsets the replication layer records.

use vstd::prelude::*;

verus! {

/// A cluster timestamp: seconds since the epoch plus an ordinal for
/// operations within the same second.
#[derive(Clone, Copy, Debug, PartialEq, Eq, Structural)]
pub struct OplogTimestamp {
    pub time: u32,
    pub increment: u32,
}

/// A position in the oplog, ordered by its cluster timestamp.
#[derive(Clone, Copy, Debug, PartialEq, Eq, Structural)]
pub struct OplogPosition {
    pub timestamp: OplogTimestamp,
}

/// A generic replication offset: the packed position plus the name of the
/// replication log it belongs to.
#[derive(Debug, PartialEq, Eq)]
pub struct ReplicationOffset {
    pub offset: u128,
    pub replication_log_name: String,
}

impl OplogPosition {
    /// Packs the position into one integer: the seconds in the upper half
    /// of the low 64 bits, the ordinal in the lower half.
    pub fn to_u128(&self) -> (r: u128)
        ensures
            r == self.timestamp.time as u128 * 0x1_0000_0000 + self.timestamp.increment as u128,
            r < 0x1_0000_0000_0000_0000,
    {
        let upper = (self.timestamp.time as u64) << 32u64;
        let lower = self.timestamp.increment as u64;
        let packed = upper | lower;
        proof {
            let t = self.timestamp.time as u64;
            let i = self.timestamp.increment as u64;
            assert(t < 0x1_0000_0000 && i < 0x1_0000_0000 ==> ((t << 32u64) | i) == t
                * 0x1_0000_0000 + i) by (bit_vector);
        }
        packed as u128
    }

    /// Unpacks an integer offset into the cluster timestamp it encodes;
    /// bits beyond the low 64 are ignored.
    pub fn from_u128(value: u128) -> (r: OplogTimestamp)
        ensures
            r.time == ((value as u64) >> 32u64) as u32,
            r.increment == value as u32,
    {
        let time = (value >> 32u64) as u32;
        let increment = value as u32;
        proof {
            let v = value;
            assert((v >> 32u128) as u32 == ((v as u64) >> 32u64) as u32) by (bit_vector);
        }
        OplogTimestamp { time, increment }
    }

    /// Builds a position directly from a cluster timestamp.
    pub fn from_timestamp(timestamp: OplogTimestamp) -> (r: OplogPosition)
        ensures
            r.timestamp == timestamp,
    {
        OplogPosition { timestamp }
    }

    /// Builds a position from a packed integer offset.
    pub fn from_offset_value(value: u128) -> (r: OplogPosition)
        ensures
            r.timestamp == OplogPosition::from_u128_spec(value),
    {
        OplogPosition { timestamp: Self::from_u128(value) }
    }

    /// The timestamp a packed offset decodes to.
    pub open spec fn from_u128_spec(value: u128) -> OplogTimestamp {
        OplogTimestamp { time: ((value as u64) >> 32u64) as u32, increment: value as u32 }
    }

    /// Converts the position to the offset the replication layer records;
    /// the log name is empty because the oplog is a single log.
    pub fn as_replication_offset(&self) -> (r: ReplicationOffset)
        ensures
            r.offset == self.timestamp.time as u128 * 0x1_0000_0000 + self.timestamp.increment
                as u128,
            r.replication_log_name@ == Seq::<char>::empty(),
    {
        ReplicationOffset { offset: self.to_u128(), replication_log_name: String::new() }
    }

    /// Builds the position a recorded replication offset denotes.
    pub fn from_replication_offset(value: &ReplicationOffset) -> (r: OplogPosition)
        ensures
            r.timestamp == OplogPosition::from_u128_spec(value.offset),
    {
        OplogPosition { timestamp: Self::from_u128(value.offset) }
    }
}

/// Packing a position and unpacking the result always gives back the same
/// cluster timestamp: replication offsets lose no position information.
pub proof fn lemma_oplog_round_trip(p: OplogPosition)
    ensures
        OplogPosition::from_u128_spec(
            ((p.timestamp.time as u128) * 0x1_0000_0000 + p.timestamp.increment as u128) as u128,
        ) == p.timestamp,
{
    let t = p.timestamp.time;
    let i = p.timestamp.increment;
    assert(((((t as u128) * 0x1_0000_0000 + i as u128) as u64) >> 32u64) as u32 == t)
        by (bit_vector);
    assert(((t as u128) * 0x1_0000_0000 + i as u128) as u32 == i) by (bit_vector);
}

} // verus!
