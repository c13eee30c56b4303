//! Structure type and message of the echo benchmark.

use vstd::prelude::*;

verus! {

/// Structure types of the echo protocol.
#[derive(PartialEq, Eq, Structural, Clone, Copy, Debug, Hash)]
pub enum EchoSType {
    Echo,
}

impl EchoSType {
    /// Wire value of a structure type: its discriminant.
    pub fn serialize(s_type: EchoSType) -> (r: u64)
        ensures
            r == 0,
    {
        0
    }

    /// The structure type of a wire value whose low byte is a discriminant.
    pub fn deserialize(val: u64) -> (s: EchoSType)
        requires
            val % 256 == 0,
        ensures
            s == EchoSType::Echo,
    {
        EchoSType::Echo
    }
}

/// The echoed message.
#[derive(Clone, Debug)]
pub struct EchoMsg {
    pub s_type: EchoSType,
    pub data: Vec<u8>,
}

} // verus!
