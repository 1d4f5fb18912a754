use minimal_usb::protocol::{
    HostToSensor, MinimalConfig, SensorToHost, CONFIG_VERSION, MAX_FRAME_LEN, NAME_LEN,
};
use minimal_usb::transport::ID;
use minimal_usb::wire::CodecError;
use serde::ser::{Serialize, SerializeStructVariant, Serializer};

fn id() -> SensorToHost {
    SensorToHost::Id { name: ID, version: CONFIG_VERSION }
}

fn id_frame() -> Vec<u8> {
    let mut frame = vec![0u8];
    frame.extend_from_slice(b"Minimal USB device\0\0\0\0\0\0");
    frame.push(1);
    frame
}

fn all_host_messages() -> Vec<HostToSensor> {
    let mut all = vec![
        HostToSensor::Trigger,
        HostToSensor::WhoAreYou,
        HostToSensor::Ping,
        HostToSensor::GetConfig,
        HostToSensor::Reset,
    ];
    for samples in sample_values() {
        all.push(HostToSensor::SetConfig(MinimalConfig { samples }));
    }
    all
}

fn sample_values() -> Vec<u32> {
    let mut values = vec![0, 1, 42, 127, 128, 129, 300, 16383, 16384, 2097151, 2097152];
    values.extend_from_slice(&[268435455, 268435456, 0x7fff_ffff, 0x8000_0000, u32::MAX]);
    let mut x: u32 = 1;
    for _ in 0..200 {
        x = x.wrapping_mul(1664525).wrapping_add(1013904223);
        values.push(x);
        values.push(x >> 9);
        values.push(x >> 20);
    }
    values
}

/// The schema as a serializer sees it, written out by hand.
struct HostMirror(HostToSensor);

impl Serialize for HostMirror {
    fn serialize<S: Serializer>(&self, s: S) -> Result<S::Ok, S::Error> {
        match self.0 {
            HostToSensor::Trigger => s.serialize_unit_variant("HostToSensor", 0, "Trigger"),
            HostToSensor::WhoAreYou => s.serialize_unit_variant("HostToSensor", 1, "WhoAreYou"),
            HostToSensor::Ping => s.serialize_unit_variant("HostToSensor", 2, "Ping"),
            HostToSensor::SetConfig(config) => {
                s.serialize_newtype_variant("HostToSensor", 3, "SetConfig", &(config.samples,))
            }
            HostToSensor::GetConfig => s.serialize_unit_variant("HostToSensor", 4, "GetConfig"),
            HostToSensor::Reset => s.serialize_unit_variant("HostToSensor", 5, "Reset"),
        }
    }
}

struct DeviceMirror(SensorToHost);

impl Serialize for DeviceMirror {
    fn serialize<S: Serializer>(&self, s: S) -> Result<S::Ok, S::Error> {
        match self.0 {
            SensorToHost::Id { name, version } => {
                let mut fields = s.serialize_struct_variant("SensorToHost", 0, "Id", 2)?;
                fields.serialize_field("name", &name)?;
                fields.serialize_field("version", &version)?;
                fields.end()
            }
            SensorToHost::Pong => s.serialize_unit_variant("SensorToHost", 1, "Pong"),
            SensorToHost::Config(config) => {
                s.serialize_newtype_variant("SensorToHost", 2, "Config", &(config.samples,))
            }
            SensorToHost::ConfigOk => s.serialize_unit_variant("SensorToHost", 3, "ConfigOk"),
        }
    }
}

#[test]
fn unit_commands_are_one_byte() {
    assert_eq!(HostToSensor::Trigger.encode(), vec![0]);
    assert_eq!(HostToSensor::WhoAreYou.encode(), vec![1]);
    assert_eq!(HostToSensor::Ping.encode(), vec![2]);
    assert_eq!(HostToSensor::GetConfig.encode(), vec![4]);
    assert_eq!(HostToSensor::Reset.encode(), vec![5]);
}

#[test]
fn set_config_carries_samples_as_varint() {
    let frame = |samples| HostToSensor::SetConfig(MinimalConfig { samples }).encode();
    assert_eq!(frame(0), vec![3, 0]);
    assert_eq!(frame(42), vec![3, 42]);
    assert_eq!(frame(127), vec![3, 127]);
    assert_eq!(frame(128), vec![3, 0x80, 0x01]);
    assert_eq!(frame(300), vec![3, 0xac, 0x02]);
    assert_eq!(frame(16384), vec![3, 0x80, 0x80, 0x01]);
    assert_eq!(frame(u32::MAX), vec![3, 0xff, 0xff, 0xff, 0xff, 0x0f]);
}

#[test]
fn replies_have_their_exact_frames() {
    assert_eq!(SensorToHost::Pong.encode(), vec![1]);
    assert_eq!(SensorToHost::ConfigOk.encode(), vec![3]);
    assert_eq!(SensorToHost::Config(MinimalConfig { samples: 42 }).encode(), vec![2, 42]);
    assert_eq!(
        SensorToHost::Config(MinimalConfig { samples: 1_000_000 }).encode(),
        vec![2, 0xc0, 0x84, 0x3d]
    );
    assert_eq!(id().encode(), id_frame());
    assert_eq!(id().encode().len(), 26);
}

#[test]
fn id_version_is_a_varint_behind_the_name() {
    let mut name = [0u8; 24];
    for (i, byte) in name.iter_mut().enumerate() {
        *byte = 200 + i as u8;
    }
    let frame = SensorToHost::Id { name, version: 0xffff }.encode();
    assert_eq!(frame.len(), 1 + NAME_LEN + 3);
    assert_eq!(frame[0], 0);
    assert_eq!(&frame[1..25], &name[..]);
    assert_eq!(&frame[25..], &[0xff, 0xff, 0x03]);
    assert_eq!(frame.len(), MAX_FRAME_LEN);
}

#[test]
fn host_messages_round_trip() {
    for message in all_host_messages() {
        let frame = message.encode();
        assert!(!frame.is_empty() && frame.len() <= 6);
        assert_eq!(HostToSensor::decode(&frame), Ok(message));
    }
}

#[test]
fn device_messages_round_trip() {
    let mut all = vec![id(), SensorToHost::Pong, SensorToHost::ConfigOk];
    for samples in sample_values() {
        all.push(SensorToHost::Config(MinimalConfig { samples }));
    }
    for version in [0u16, 1, 127, 128, 255, 256, 16383, 16384, 65535] {
        let mut name = [0u8; 24];
        for (i, byte) in name.iter_mut().enumerate() {
            *byte = (version as u8).wrapping_mul(31).wrapping_add(i as u8 * 7);
        }
        all.push(SensorToHost::Id { name, version });
    }
    for message in all {
        let frame = message.encode();
        assert!(!frame.is_empty() && frame.len() <= MAX_FRAME_LEN);
        assert_eq!(SensorToHost::decode(&frame), Ok(message));
    }
}

#[test]
fn every_version_round_trips() {
    for version in 0..=u16::MAX {
        let message = SensorToHost::Id { name: ID, version };
        assert_eq!(SensorToHost::decode(&message.encode()), Ok(message));
    }
}

#[test]
fn frames_are_what_postcard_writes() {
    for message in all_host_messages() {
        assert_eq!(message.encode(), postcard::to_allocvec(&HostMirror(message)).unwrap());
    }
    let mut replies = vec![id(), SensorToHost::Pong, SensorToHost::ConfigOk];
    for samples in sample_values() {
        replies.push(SensorToHost::Config(MinimalConfig { samples }));
    }
    replies.push(SensorToHost::Id { name: [0xff; 24], version: 0xffff });
    replies.push(SensorToHost::Id { name: [0x80; 24], version: 300 });
    for message in replies {
        assert_eq!(message.encode(), postcard::to_allocvec(&DeviceMirror(message)).unwrap());
    }
}

#[test]
fn frames_read_as_postcard_reads_them() {
    for samples in sample_values() {
        let frame = HostToSensor::SetConfig(MinimalConfig { samples }).encode();
        assert_eq!(postcard::from_bytes::<(u32, u32)>(&frame), Ok((3, samples)));
    }
    let frame = id().encode();
    assert_eq!(postcard::from_bytes::<(u32, [u8; 24], u16)>(&frame), Ok((0, ID, 1)));
}

#[test]
fn empty_frame_is_refused() {
    assert_eq!(HostToSensor::decode(&[]), Err(CodecError::UnexpectedEnd));
    assert_eq!(SensorToHost::decode(&[]), Err(CodecError::UnexpectedEnd));
}

#[test]
fn unknown_discriminant_is_refused() {
    assert_eq!(HostToSensor::decode(&[6]), Err(CodecError::UnknownVariant));
    assert_eq!(HostToSensor::decode(&[127]), Err(CodecError::UnknownVariant));
    assert_eq!(HostToSensor::decode(&[0x80, 0x01]), Err(CodecError::UnknownVariant));
    assert_eq!(
        HostToSensor::decode(&[0xff, 0xff, 0xff, 0xff, 0x0f]),
        Err(CodecError::UnknownVariant)
    );
    assert_eq!(SensorToHost::decode(&[4]), Err(CodecError::UnknownVariant));
    assert_eq!(SensorToHost::decode(&[5, 1, 2, 3]), Err(CodecError::UnknownVariant));
}

#[test]
fn one_byte_frames_decode_by_discriminant() {
    for tag in 0u8..=255 {
        let host = HostToSensor::decode(&[tag]);
        let device = SensorToHost::decode(&[tag]);
        match tag {
            0 => assert_eq!(host, Ok(HostToSensor::Trigger)),
            1 => assert_eq!(host, Ok(HostToSensor::WhoAreYou)),
            2 => assert_eq!(host, Ok(HostToSensor::Ping)),
            4 => assert_eq!(host, Ok(HostToSensor::GetConfig)),
            5 => assert_eq!(host, Ok(HostToSensor::Reset)),
            6..=127 => assert_eq!(host, Err(CodecError::UnknownVariant)),
            _ => assert_eq!(host, Err(CodecError::UnexpectedEnd)),
        }
        match tag {
            1 => assert_eq!(device, Ok(SensorToHost::Pong)),
            3 => assert_eq!(device, Ok(SensorToHost::ConfigOk)),
            4..=127 => assert_eq!(device, Err(CodecError::UnknownVariant)),
            _ => assert_eq!(device, Err(CodecError::UnexpectedEnd)),
        }
    }
}

#[test]
fn truncated_fields_are_refused() {
    assert_eq!(HostToSensor::decode(&[3]), Err(CodecError::UnexpectedEnd));
    assert_eq!(HostToSensor::decode(&[3, 0x80]), Err(CodecError::UnexpectedEnd));
    assert_eq!(HostToSensor::decode(&[3, 0xff, 0xff, 0xff, 0xff]), Err(CodecError::UnexpectedEnd));
    assert_eq!(SensorToHost::decode(&[2]), Err(CodecError::UnexpectedEnd));
    let frame = id_frame();
    for cut in 1..frame.len() {
        assert_eq!(SensorToHost::decode(&frame[..cut]), Err(CodecError::UnexpectedEnd));
    }
    assert_eq!(SensorToHost::decode(&frame), Ok(id()));
}

#[test]
fn fields_wider_than_declared_are_refused() {
    let too_many_bits = [3, 0xff, 0xff, 0xff, 0xff, 0x10];
    assert_eq!(HostToSensor::decode(&too_many_bits), Err(CodecError::BadVarint));
    let too_many_bytes = [3, 0x80, 0x80, 0x80, 0x80, 0x80, 0x00];
    assert_eq!(HostToSensor::decode(&too_many_bytes), Err(CodecError::BadVarint));
    assert_eq!(HostToSensor::decode(&[0x80, 0x80, 0x80, 0x80, 0x80]), Err(CodecError::BadVarint));
    assert_eq!(SensorToHost::decode(&[2, 0xff, 0xff, 0xff, 0xff, 0x7f]), Err(CodecError::BadVarint));

    let mut wide_version = vec![0u8];
    wide_version.extend_from_slice(&ID);
    wide_version.extend_from_slice(&[0xff, 0xff, 0x04]);
    assert_eq!(SensorToHost::decode(&wide_version), Err(CodecError::BadVarint));

    let mut long_version = vec![0u8];
    long_version.extend_from_slice(&ID);
    long_version.extend_from_slice(&[0x80, 0x80, 0x80, 0x00]);
    assert_eq!(SensorToHost::decode(&long_version), Err(CodecError::BadVarint));
}

#[test]
fn widest_fields_are_accepted() {
    assert_eq!(
        HostToSensor::decode(&[3, 0xff, 0xff, 0xff, 0xff, 0x0f]),
        Ok(HostToSensor::SetConfig(MinimalConfig { samples: u32::MAX }))
    );
    let mut frame = vec![0u8];
    frame.extend_from_slice(&ID);
    frame.extend_from_slice(&[0xff, 0xff, 0x03]);
    assert_eq!(SensorToHost::decode(&frame), Ok(SensorToHost::Id { name: ID, version: 0xffff }));
}

#[test]
fn padded_integers_are_read_as_their_value() {
    assert_eq!(HostToSensor::decode(&[0x82, 0x00]), Ok(HostToSensor::Ping));
    assert_eq!(
        HostToSensor::decode(&[3, 0xaa, 0x80, 0x00]),
        Ok(HostToSensor::SetConfig(MinimalConfig { samples: 42 }))
    );
    assert_eq!(SensorToHost::decode(&[0x81, 0x80, 0x80, 0x80, 0x00]), Ok(SensorToHost::Pong));
}

#[test]
fn bytes_behind_a_message_are_ignored() {
    assert_eq!(HostToSensor::decode(&[2, 0xff, 0xff]), Ok(HostToSensor::Ping));
    assert_eq!(
        HostToSensor::decode(&[3, 42, 9, 9]),
        Ok(HostToSensor::SetConfig(MinimalConfig { samples: 42 }))
    );
    let mut frame = id_frame();
    frame.extend_from_slice(&[0x80, 0x80]);
    assert_eq!(SensorToHost::decode(&frame), Ok(id()));
}

#[test]
fn decoding_never_panics_on_short_garbage() {
    let mut ok = 0u32;
    for a in 0u8..=255 {
        for b in 0u8..=255 {
            for rest in [&[][..], &[0x00][..], &[0xff][..], &[0x80, 0x80, 0x80, 0x01][..]] {
                let mut frame = vec![a, b];
                frame.extend_from_slice(rest);
                if let Ok(message) = HostToSensor::decode(&frame) {
                    ok += 1;
                    assert_eq!(HostToSensor::decode(&message.encode()), Ok(message));
                }
                let _ = SensorToHost::decode(&frame);
            }
        }
    }
    assert!(ok > 0);
}

#[test]
fn config_version_is_one() {
    assert_eq!(CONFIG_VERSION, 1);
    assert_eq!(NAME_LEN, 24);
}
