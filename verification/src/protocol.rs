//! The message schema: what the device and the host can say to each other,
//! and the bytes each message travels as.
//!
//! A frame is the discriminant of the variant followed by its fields in
//! order, integers in the variable-length form of [`crate::wire`], the
//! identifier as its 24 bytes. Nothing in a frame gives its length: the link
//! delivers whole packets. Bytes behind a complete message are ignored.

use vstd::prelude::*;
use vstd::slice::slice_subrange;
use crate::wire::{parse_u16, parse_u32, put_u32, take_u16, take_u32, varint, CodecError};
use crate::wire::{parse_varint_roundtrip, varint_len_bound, varint_limits};

verus! {

/// The version of the configuration layout that this build speaks.
pub const CONFIG_VERSION: u16 = 1;

/// The length of a device identifier.
pub const NAME_LEN: usize = 24;

/// No frame of this schema is longer than this, whichever way it travels.
pub const MAX_FRAME_LEN: usize = 28;

/// The configuration of the device.
#[derive(Debug, Clone, Copy, PartialEq, Eq, Structural)]
pub struct MinimalConfig {
    pub samples: u32,
}

/// What the device says to the host.
#[derive(Debug, Clone, Copy, PartialEq, Eq)]
pub enum SensorToHost {
    /// Who the device is: its zero-padded name and the version it speaks.
    /// The answer to [`HostToSensor::WhoAreYou`].
    Id { name: [u8; 24], version: u16 },
    /// The answer to [`HostToSensor::Ping`].
    Pong,
    /// The current configuration.
    Config(MinimalConfig),
    /// The configuration was persisted.
    ConfigOk,
}

/// What the host says to the device.
#[derive(Debug, Clone, Copy, PartialEq, Eq, Structural)]
pub enum HostToSensor {
    /// Take a sample.
    Trigger,
    /// Ask for a [`SensorToHost::Id`].
    WhoAreYou,
    /// Ask for a [`SensorToHost::Pong`].
    Ping,
    /// Persist this configuration.
    SetConfig(MinimalConfig),
    /// Ask for the configuration.
    GetConfig,
    /// Reset, for example to enter configuration mode.
    Reset,
}

/// The name that is made of these 24 bytes.
pub open spec fn name_of(bytes: Seq<u8>) -> [u8; 24] {
    choose|name: [u8; 24]| name@ == bytes
}

/// A name is made of its own bytes and of no others.
pub proof fn name_of_its_bytes(name: [u8; 24])
    ensures
        name_of(name@) == name,
{
    assert(name_of(name@)@ == name@);
    assert(name_of(name@)@ =~= name@);
}

impl HostToSensor {
    /// The discriminant that the variant travels under.
    pub open spec fn tag(self) -> nat {
        match self {
            HostToSensor::Trigger => 0,
            HostToSensor::WhoAreYou => 1,
            HostToSensor::Ping => 2,
            HostToSensor::SetConfig(_) => 3,
            HostToSensor::GetConfig => 4,
            HostToSensor::Reset => 5,
        }
    }

    /// The frame of a message.
    pub open spec fn wire(self) -> Seq<u8> {
        match self {
            HostToSensor::SetConfig(config) => varint(3) + varint(config.samples as nat),
            _ => varint(self.tag()),
        }
    }

    /// What a frame says: the message at its front, or why there is none.
    pub open spec fn parse(bytes: Seq<u8>) -> Result<HostToSensor, CodecError> {
        match parse_u32(bytes) {
            Err(e) => Err(e),
            Ok((tag, used)) => if tag == 0 {
                Ok(HostToSensor::Trigger)
            } else if tag == 1 {
                Ok(HostToSensor::WhoAreYou)
            } else if tag == 2 {
                Ok(HostToSensor::Ping)
            } else if tag == 3 {
                match parse_u32(bytes.skip(used as int)) {
                    Err(e) => Err(e),
                    Ok((samples, _)) => Ok(
                        HostToSensor::SetConfig(MinimalConfig { samples: samples as u32 }),
                    ),
                }
            } else if tag == 4 {
                Ok(HostToSensor::GetConfig)
            } else if tag == 5 {
                Ok(HostToSensor::Reset)
            } else {
                Err(CodecError::UnknownVariant)
            },
        }
    }

    /// Writes the message as a frame.
    pub fn encode(&self) -> (out: Vec<u8>)
        ensures
            out@ == self.wire(),
            1 <= out.len() <= MAX_FRAME_LEN,
    {
        proof {
            host_frame_len(*self);
        }
        match self {
            HostToSensor::Trigger => put_u32(0),
            HostToSensor::WhoAreYou => put_u32(1),
            HostToSensor::Ping => put_u32(2),
            HostToSensor::SetConfig(config) => {
                let mut out = put_u32(3);
                let mut field = put_u32(config.samples);
                out.append(&mut field);
                out
            },
            HostToSensor::GetConfig => put_u32(4),
            HostToSensor::Reset => put_u32(5),
        }
    }

    /// Reads the message at the front of a frame. Fails on a frame that ends
    /// early, on a field that is too wide and on an unknown discriminant;
    /// never on anything else.
    pub fn decode(bytes: &[u8]) -> (r: Result<HostToSensor, CodecError>)
        ensures
            r == HostToSensor::parse(bytes@),
    {
        let (tag, rest) = match take_u32(bytes) {
            Ok(pair) => pair,
            Err(e) => { return Err(e); },
        };
        if tag == 0 {
            Ok(HostToSensor::Trigger)
        } else if tag == 1 {
            Ok(HostToSensor::WhoAreYou)
        } else if tag == 2 {
            Ok(HostToSensor::Ping)
        } else if tag == 3 {
            match take_u32(rest) {
                Ok((samples, _)) => Ok(HostToSensor::SetConfig(MinimalConfig { samples })),
                Err(e) => Err(e),
            }
        } else if tag == 4 {
            Ok(HostToSensor::GetConfig)
        } else if tag == 5 {
            Ok(HostToSensor::Reset)
        } else {
            Err(CodecError::UnknownVariant)
        }
    }
}

impl SensorToHost {
    /// The discriminant that the variant travels under.
    pub open spec fn tag(self) -> nat {
        match self {
            SensorToHost::Id { .. } => 0,
            SensorToHost::Pong => 1,
            SensorToHost::Config(_) => 2,
            SensorToHost::ConfigOk => 3,
        }
    }

    /// The frame of a message.
    pub open spec fn wire(self) -> Seq<u8> {
        match self {
            SensorToHost::Id { name, version } => varint(0) + name@ + varint(version as nat),
            SensorToHost::Config(config) => varint(2) + varint(config.samples as nat),
            _ => varint(self.tag()),
        }
    }

    /// What a frame says: the message at its front, or why there is none.
    pub open spec fn parse(bytes: Seq<u8>) -> Result<SensorToHost, CodecError> {
        match parse_u32(bytes) {
            Err(e) => Err(e),
            Ok((tag, used)) => {
                let rest = bytes.skip(used as int);
                if tag == 0 {
                    if rest.len() < NAME_LEN {
                        Err(CodecError::UnexpectedEnd)
                    } else {
                        match parse_u16(rest.skip(NAME_LEN as int)) {
                            Err(e) => Err(e),
                            Ok((version, _)) => Ok(
                                SensorToHost::Id {
                                    name: name_of(rest.take(NAME_LEN as int)),
                                    version: version as u16,
                                },
                            ),
                        }
                    }
                } else if tag == 1 {
                    Ok(SensorToHost::Pong)
                } else if tag == 2 {
                    match parse_u32(rest) {
                        Err(e) => Err(e),
                        Ok((samples, _)) => Ok(
                            SensorToHost::Config(MinimalConfig { samples: samples as u32 }),
                        ),
                    }
                } else if tag == 3 {
                    Ok(SensorToHost::ConfigOk)
                } else {
                    Err(CodecError::UnknownVariant)
                }
            },
        }
    }

    /// Writes the message as a frame.
    pub fn encode(&self) -> (out: Vec<u8>)
        ensures
            out@ == self.wire(),
            1 <= out.len() <= MAX_FRAME_LEN,
    {
        proof {
            device_frame_len(*self);
        }
        match self {
            SensorToHost::Id { name, version } => {
                let mut out = put_u32(0);
                let mut i: usize = 0;
                while i < NAME_LEN
                    invariant
                        i <= NAME_LEN,
                        out@ == varint(0) + name@.take(i as int),
                    decreases NAME_LEN - i,
                {
                    out.push(name[i]);
                    i += 1;
                    assert(name@.take(i as int) =~= name@.take(i - 1).push(name@[i - 1]));
                }
                assert(name@.take(NAME_LEN as int) =~= name@);
                let mut field = put_u32(*version as u32);
                out.append(&mut field);
                out
            },
            SensorToHost::Pong => put_u32(1),
            SensorToHost::Config(config) => {
                let mut out = put_u32(2);
                let mut field = put_u32(config.samples);
                out.append(&mut field);
                out
            },
            SensorToHost::ConfigOk => put_u32(3),
        }
    }

    /// Reads the message at the front of a frame. Fails on a frame that ends
    /// early, on a field that is too wide and on an unknown discriminant;
    /// never on anything else.
    pub fn decode(bytes: &[u8]) -> (r: Result<SensorToHost, CodecError>)
        ensures
            r == SensorToHost::parse(bytes@),
    {
        let (tag, rest) = match take_u32(bytes) {
            Ok(pair) => pair,
            Err(e) => { return Err(e); },
        };
        if tag == 0 {
            if rest.len() < NAME_LEN {
                return Err(CodecError::UnexpectedEnd);
            }
            let mut name: [u8; 24] = [0u8; 24];
            let mut i: usize = 0;
            while i < NAME_LEN
                invariant
                    i <= NAME_LEN <= rest.len(),
                    forall|k: int| 0 <= k < i ==> name@[k] == rest@[k],
                decreases NAME_LEN - i,
            {
                name[i] = rest[i];
                i += 1;
            }
            assert(name@ =~= rest@.take(NAME_LEN as int));
            proof {
                name_of_its_bytes(name);
            }
            match take_u16(slice_subrange(rest, NAME_LEN, rest.len())) {
                Ok((version, _)) => Ok(SensorToHost::Id { name, version }),
                Err(e) => Err(e),
            }
        } else if tag == 1 {
            Ok(SensorToHost::Pong)
        } else if tag == 2 {
            match take_u32(rest) {
                Ok((samples, _)) => Ok(SensorToHost::Config(MinimalConfig { samples })),
                Err(e) => Err(e),
            }
        } else if tag == 3 {
            Ok(SensorToHost::ConfigOk)
        } else {
            Err(CodecError::UnknownVariant)
        }
    }
}

/// A frame for the device is between one and six bytes long.
pub proof fn host_frame_len(m: HostToSensor)
    ensures
        1 <= m.wire().len() <= 6,
{
    varint_limits();
    varint_len_bound(m.tag(), 5, 15);
    if let HostToSensor::SetConfig(config) = m {
        varint_len_bound(config.samples as nat, 5, 15);
    }
}

/// A frame for the host is between one and 28 bytes long, so it fits the
/// smallest packet of the link with room to spare.
pub proof fn device_frame_len(m: SensorToHost)
    ensures
        1 <= m.wire().len() <= MAX_FRAME_LEN,
{
    varint_limits();
    varint_len_bound(m.tag(), 5, 15);
    match m {
        SensorToHost::Id { name, version } => {
            varint_len_bound(version as nat, 3, 3);
        },
        SensorToHost::Config(config) => {
            varint_len_bound(config.samples as nat, 5, 15);
        },
        _ => {},
    }
}

/// Decoding undoes encoding for every message to the device: its frame
/// says the message, and so does its frame with anything behind it.
pub proof fn host_roundtrip(m: HostToSensor, tail: Seq<u8>)
    ensures
        HostToSensor::parse(m.wire()) == Ok::<HostToSensor, CodecError>(m),
        HostToSensor::parse(m.wire() + tail) == Ok::<HostToSensor, CodecError>(m),
    decreases tail.len(),
{
    if tail.len() > 0 {
        host_roundtrip(m, Seq::empty());
    } else {
        assert(m.wire() + tail =~= m.wire());
    }
    varint_limits();
    let bytes = m.wire() + tail;
    match m {
        HostToSensor::SetConfig(config) => {
            let field = varint(config.samples as nat) + tail;
            assert(bytes =~= varint(3) + field);
            parse_varint_roundtrip(3, field, 5, 15);
            assert(bytes.skip(varint(3).len() as int) =~= field);
            parse_varint_roundtrip(config.samples as nat, tail, 5, 15);
        },
        _ => {
            parse_varint_roundtrip(m.tag(), tail, 5, 15);
        },
    }
}

/// Decoding undoes encoding for every message to the host: its frame says
/// the message, and so does its frame with anything behind it.
pub proof fn device_roundtrip(m: SensorToHost, tail: Seq<u8>)
    ensures
        SensorToHost::parse(m.wire()) == Ok::<SensorToHost, CodecError>(m),
        SensorToHost::parse(m.wire() + tail) == Ok::<SensorToHost, CodecError>(m),
    decreases tail.len(),
{
    if tail.len() > 0 {
        device_roundtrip(m, Seq::empty());
    } else {
        assert(m.wire() + tail =~= m.wire());
    }
    varint_limits();
    let bytes = m.wire() + tail;
    match m {
        SensorToHost::Id { name, version } => {
            let number = varint(version as nat) + tail;
            let body = name@ + number;
            assert(bytes =~= varint(0) + body);
            parse_varint_roundtrip(0, body, 5, 15);
            assert(bytes.skip(varint(0).len() as int) =~= body);
            assert(body.take(NAME_LEN as int) =~= name@);
            name_of_its_bytes(name);
            assert(body.skip(NAME_LEN as int) =~= number);
            parse_varint_roundtrip(version as nat, tail, 3, 3);
        },
        SensorToHost::Config(config) => {
            let field = varint(config.samples as nat) + tail;
            assert(bytes =~= varint(2) + field);
            parse_varint_roundtrip(2, field, 5, 15);
            assert(bytes.skip(varint(2).len() as int) =~= field);
            parse_varint_roundtrip(config.samples as nat, tail, 5, 15);
        },
        _ => {
            parse_varint_roundtrip(m.tag(), tail, 5, 15);
        },
    }
}

/// A frame without a byte, or one whose discriminant names no variant, is
/// refused, whichever way it travels; so is one whose discriminant cannot be
/// read.
pub proof fn malformed_is_refused(bytes: Seq<u8>)
    ensures
        bytes.len() == 0 ==> SensorToHost::parse(bytes) == Err::<SensorToHost, CodecError>(
            CodecError::UnexpectedEnd,
        ) && HostToSensor::parse(bytes) == Err::<HostToSensor, CodecError>(
            CodecError::UnexpectedEnd,
        ),
        parse_u32(bytes) matches Ok((tag, _)) && tag > 3 ==> SensorToHost::parse(bytes) == Err::<
            SensorToHost,
            CodecError,
        >(CodecError::UnknownVariant),
        parse_u32(bytes) matches Ok((tag, _)) && tag > 5 ==> HostToSensor::parse(bytes) == Err::<
            HostToSensor,
            CodecError,
        >(CodecError::UnknownVariant),
        parse_u32(bytes) is Err ==> SensorToHost::parse(bytes) is Err && HostToSensor::parse(
            bytes,
        ) is Err,
{
}

} // verus!
