//! The closed set of frame type tags and their 16-bit wire codes.

use vstd::prelude::*;

verus! {

/// Kind of data a frame carries, as declared by the header's type code.
///
/// The set is closed: a wire code outside it is invalid, not an
/// ignorable variant.
#[derive(Clone, Copy, Debug, PartialEq, Eq, Structural)]
pub enum DataType {
    Command,
    CommandReply,
    Error,
    ScanData,
    ObjectData,
    MovementData,
    EgoMotionData,
    SensorInfo,
}

impl DataType {
    /// The 16-bit wire code of this tag.
    pub open spec fn code(self) -> u16 {
        match self {
            DataType::Command => 0x2010,
            DataType::CommandReply => 0x2020,
            DataType::Error => 0x2030,
            DataType::ScanData => 0x2202,
            DataType::ObjectData => 0x2221,
            DataType::MovementData => 0x2805,
            DataType::EgoMotionData => 0x2850,
            DataType::SensorInfo => 0x7100,
        }
    }

    /// The tag a 16-bit wire code stands for, if any.
    pub open spec fn spec_from_u16(code: u16) -> Option<DataType> {
        if code == 0x2010 {
            Some(DataType::Command)
        } else if code == 0x2020 {
            Some(DataType::CommandReply)
        } else if code == 0x2030 {
            Some(DataType::Error)
        } else if code == 0x2202 {
            Some(DataType::ScanData)
        } else if code == 0x2221 {
            Some(DataType::ObjectData)
        } else if code == 0x2805 {
            Some(DataType::MovementData)
        } else if code == 0x2850 {
            Some(DataType::EgoMotionData)
        } else if code == 0x7100 {
            Some(DataType::SensorInfo)
        } else {
            None
        }
    }

    pub fn from_u16(code: u16) -> (r: Option<DataType>)
        ensures
            r == DataType::spec_from_u16(code),
    {
        if code == 0x2010 {
            Some(DataType::Command)
        } else if code == 0x2020 {
            Some(DataType::CommandReply)
        } else if code == 0x2030 {
            Some(DataType::Error)
        } else if code == 0x2202 {
            Some(DataType::ScanData)
        } else if code == 0x2221 {
            Some(DataType::ObjectData)
        } else if code == 0x2805 {
            Some(DataType::MovementData)
        } else if code == 0x2850 {
            Some(DataType::EgoMotionData)
        } else if code == 0x7100 {
            Some(DataType::SensorInfo)
        } else {
            None
        }
    }

    pub fn from_u64(n: u64) -> (r: Option<DataType>)
        ensures
            n <= 0xFFFF ==> r == DataType::spec_from_u16(n as u16),
            n > 0xFFFF ==> r is None,
    {
        if n > 0xFFFF {
            None
        } else {
            DataType::from_u16(n as u16)
        }
    }

    pub fn from_i64(n: i64) -> (r: Option<DataType>)
        ensures
            0 <= n <= 0xFFFF ==> r == DataType::spec_from_u16(n as u16),
            !(0 <= n <= 0xFFFF) ==> r is None,
    {
        if n < 0 || n > 0xFFFF {
            None
        } else {
            DataType::from_u16(n as u16)
        }
    }

    pub fn to_u16(&self) -> (r: u16)
        ensures
            r == self.code(),
    {
        match self {
            DataType::Command => 0x2010,
            DataType::CommandReply => 0x2020,
            DataType::Error => 0x2030,
            DataType::ScanData => 0x2202,
            DataType::ObjectData => 0x2221,
            DataType::MovementData => 0x2805,
            DataType::EgoMotionData => 0x2850,
            DataType::SensorInfo => 0x7100,
        }
    }

    pub fn to_u64(&self) -> (r: Option<u64>)
        ensures
            r == Some(self.code() as u64),
    {
        Some(self.to_u16() as u64)
    }

    pub fn to_i64(&self) -> (r: Option<i64>)
        ensures
            r == Some(self.code() as i64),
    {
        Some(self.to_u16() as i64)
    }
}

/// A tag's own code always maps back to the tag.
pub proof fn lemma_code_round_trip(t: DataType)
    ensures
        DataType::spec_from_u16(t.code()) == Some(t),
{
}

} // verus!
