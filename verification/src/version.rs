//! Protocol versions defined by ISO 13400 and their wire bytes.

use vstd::prelude::*;

verus! {

/// The protocol versions a DoIP header may carry.
#[derive(Debug, Clone, Copy, PartialEq, Eq, Structural)]
pub enum ProtocolVersion {
    /// Reserved version byte.
    ReservedVer,
    /// ISO 13400:2010.
    Iso13400_2010,
    /// ISO 13400:2012.
    Iso13400_2012,
    /// ISO 13400:2019.
    Iso13400_2019,
    /// ISO 13400:2019 Amd 1.
    Iso13400_2019Amd1,
    /// Default value byte used when no version is negotiated.
    DefaultValue,
}

impl ProtocolVersion {
    /// The byte this version occupies in a frame header.
    pub open spec fn spec_byte(self) -> u8 {
        match self {
            ProtocolVersion::ReservedVer => 0x00,
            ProtocolVersion::Iso13400_2010 => 0x01,
            ProtocolVersion::Iso13400_2012 => 0x02,
            ProtocolVersion::Iso13400_2019 => 0x03,
            ProtocolVersion::Iso13400_2019Amd1 => 0x04,
            ProtocolVersion::DefaultValue => 0xFF,
        }
    }

    /// The version a header byte denotes, if any.
    pub open spec fn spec_from_byte(b: u8) -> Option<ProtocolVersion> {
        if b == 0x00 {
            Some(ProtocolVersion::ReservedVer)
        } else if b == 0x01 {
            Some(ProtocolVersion::Iso13400_2010)
        } else if b == 0x02 {
            Some(ProtocolVersion::Iso13400_2012)
        } else if b == 0x03 {
            Some(ProtocolVersion::Iso13400_2019)
        } else if b == 0x04 {
            Some(ProtocolVersion::Iso13400_2019Amd1)
        } else if b == 0xFF {
            Some(ProtocolVersion::DefaultValue)
        } else {
            None
        }
    }

    /// Emit the wire byte of this version.
    pub fn to_byte(self) -> (r: u8)
        ensures
            r == self.spec_byte(),
    {
        match self {
            ProtocolVersion::ReservedVer => 0x00,
            ProtocolVersion::Iso13400_2010 => 0x01,
            ProtocolVersion::Iso13400_2012 => 0x02,
            ProtocolVersion::Iso13400_2019 => 0x03,
            ProtocolVersion::Iso13400_2019Amd1 => 0x04,
            ProtocolVersion::DefaultValue => 0xFF,
        }
    }

    /// Recognize a wire byte as a version.
    pub fn from_byte(b: u8) -> (r: Option<ProtocolVersion>)
        ensures
            r == ProtocolVersion::spec_from_byte(b),
    {
        match b {
            0x00 => Some(ProtocolVersion::ReservedVer),
            0x01 => Some(ProtocolVersion::Iso13400_2010),
            0x02 => Some(ProtocolVersion::Iso13400_2012),
            0x03 => Some(ProtocolVersion::Iso13400_2019),
            0x04 => Some(ProtocolVersion::Iso13400_2019Amd1),
            0xFF => Some(ProtocolVersion::DefaultValue),
            _ => None,
        }
    }
}

/// Reading back the emitted version byte yields the version it came from.
pub proof fn lemma_version_byte_roundtrip(v: ProtocolVersion)
    ensures
        ProtocolVersion::spec_from_byte(v.spec_byte()) == Some(v),
{
}

} // verus!
