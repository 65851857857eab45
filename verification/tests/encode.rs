use bottlesprocket::frame::{FOOTER, HEADER_FIRST, HEADER_SECOND};
use bottlesprocket::{make_command, CM17ACommand, Command, Device, EncodeError, HouseCode};

const HOUSES: [HouseCode; 16] = [
    HouseCode::A,
    HouseCode::B,
    HouseCode::C,
    HouseCode::D,
    HouseCode::E,
    HouseCode::F,
    HouseCode::G,
    HouseCode::H,
    HouseCode::I,
    HouseCode::J,
    HouseCode::K,
    HouseCode::L,
    HouseCode::M,
    HouseCode::N,
    HouseCode::O,
    HouseCode::P,
];

const DEVICES: [Device; 16] = [
    Device::Device1,
    Device::Device2,
    Device::Device3,
    Device::Device4,
    Device::Device5,
    Device::Device6,
    Device::Device7,
    Device::Device8,
    Device::Device9,
    Device::Device10,
    Device::Device11,
    Device::Device12,
    Device::Device13,
    Device::Device14,
    Device::Device15,
    Device::Device16,
];

const COMMANDS: [Command; 8] = [
    Command::On,
    Command::Off,
    Command::Dim,
    Command::Bright,
    Command::AllOff,
    Command::AllOn,
    Command::LampsOff,
    Command::LampsOn,
];

const HOUSE_COMMANDS: [Command; 6] = [
    Command::Dim,
    Command::Bright,
    Command::AllOff,
    Command::AllOn,
    Command::LampsOff,
    Command::LampsOn,
];

fn devices_and_none() -> Vec<Option<Device>> {
    let mut all: Vec<Option<Device>> = vec![None];
    for device in DEVICES {
        all.push(Some(device));
    }
    all
}

#[test]
fn test_make_command() {
    let expected1: CM17ACommand = [0xd5, 0xaa, 0x94, 0x00, 0xad];
    let actual1 = make_command(HouseCode::F, Some(Device::Device9), Command::On);
    assert_eq!(actual1, Ok(expected1));
    let expected2: CM17ACommand = [0xd5, 0xaa, 0xf0, 0x00, 0xad];
    let actual2 = make_command(HouseCode::J, Some(Device::Device1), Command::On);
    assert_eq!(actual2, Ok(expected2));
    let expected3: CM17ACommand = [0xd5, 0xaa, 0x20, 0x91, 0xad];
    let actual3 = make_command(HouseCode::O, None, Command::AllOn);
    assert_eq!(actual3, Ok(expected3));
    let expected4: CM17ACommand = [0xd5, 0xaa, 0x20, 0x84, 0xad];
    let actual4 = make_command(HouseCode::O, None, Command::LampsOff);
    assert_eq!(actual4, Ok(expected4));
    let expected5: CM17ACommand = [0xd5, 0xaa, 0x50, 0x98, 0xad];
    let actual5 = make_command(HouseCode::D, None, Command::Dim);
    assert_eq!(actual5, Ok(expected5))
}

#[test]
fn house_codes_are_the_published_ones() {
    let expected: [u8; 16] = [
        0x60, 0x70, 0x40, 0x50, 0x80, 0x90, 0xa0, 0xb0, 0xe0, 0xf0, 0xc0, 0xd0, 0x00, 0x10, 0x20,
        0x30,
    ];
    for (house, code) in HOUSES.iter().zip(expected.iter()) {
        assert_eq!(house.code(), *code);
        assert_eq!(house.code() & 0x0f, 0);
    }
}

#[test]
fn device_codes_are_the_published_ones() {
    let expected: [u16; 16] = [
        0x0000, 0x0010, 0x0008, 0x0018, 0x0040, 0x0050, 0x0048, 0x0058, 0x0400, 0x0410, 0x0408,
        0x0418, 0x0440, 0x0450, 0x0448, 0x0458,
    ];
    for (device, code) in DEVICES.iter().zip(expected.iter()) {
        assert_eq!(device.code(), *code);
    }
}

#[test]
fn command_codes_are_the_published_ones() {
    let expected: [u8; 8] = [0x00, 0x20, 0x98, 0x88, 0x80, 0x91, 0x84, 0x94];
    for (command, code) in COMMANDS.iter().zip(expected.iter()) {
        assert_eq!(command.code(), *code);
    }
}

#[test]
fn only_on_and_off_need_a_device() {
    assert!(Command::On.needs_device());
    assert!(Command::Off.needs_device());
    for command in HOUSE_COMMANDS {
        assert!(!command.needs_device());
    }
}

#[test]
fn on_and_off_without_device_are_refused_for_every_house() {
    for house in HOUSES {
        assert_eq!(make_command(house, None, Command::On), Err(EncodeError::DeviceRequired));
        assert_eq!(make_command(house, None, Command::Off), Err(EncodeError::DeviceRequired));
    }
}

#[test]
fn everything_else_is_encoded() {
    for house in HOUSES {
        for device in DEVICES {
            for command in COMMANDS {
                assert!(make_command(house, Some(device), command).is_ok());
            }
        }
        for command in HOUSE_COMMANDS {
            assert!(make_command(house, None, command).is_ok());
        }
    }
}

#[test]
fn encoding_twice_gives_the_same_bytes() {
    for house in HOUSES {
        for device in devices_and_none() {
            for command in COMMANDS {
                let first = make_command(house, device, command);
                let second = make_command(house, device, command);
                assert_eq!(first, second);
            }
        }
    }
}

#[test]
fn house_commands_ignore_the_device() {
    for house in HOUSES {
        for command in HOUSE_COMMANDS {
            let bare = make_command(house, None, command);
            assert_eq!(
                bare,
                Ok([0xd5, 0xaa, house.code(), command.code(), 0xad])
            );
            for device in DEVICES {
                assert_eq!(make_command(house, Some(device), command), bare);
            }
        }
    }
}

#[test]
fn dim_with_a_device_carries_no_device_bits() {
    let frame = make_command(HouseCode::D, Some(Device::Device16), Command::Dim);
    assert_eq!(frame, Ok([0xd5, 0xaa, 0x50, 0x98, 0xad]));
}

#[test]
fn every_frame_has_header_and_footer() {
    assert_eq!(HEADER_FIRST, 0xd5);
    assert_eq!(HEADER_SECOND, 0xaa);
    assert_eq!(FOOTER, 0xad);
    for house in HOUSES {
        for device in devices_and_none() {
            for command in COMMANDS {
                if let Ok(frame) = make_command(house, device, command) {
                    assert_eq!(frame.len(), 5);
                    assert_eq!(frame[0], 0xd5);
                    assert_eq!(frame[1], 0xaa);
                    assert_eq!(frame[4], 0xad);
                }
            }
        }
    }
}

#[test]
fn device_code_is_split_over_both_middle_bytes() {
    let off = make_command(HouseCode::A, Some(Device::Device2), Command::Off);
    assert_eq!(off, Ok([0xd5, 0xaa, 0x60, 0x30, 0xad]));
    let on = make_command(HouseCode::P, Some(Device::Device16), Command::On);
    assert_eq!(on, Ok([0xd5, 0xaa, 0x34, 0x58, 0xad]));
    let off_high = make_command(HouseCode::M, Some(Device::Device13), Command::Off);
    assert_eq!(off_high, Ok([0xd5, 0xaa, 0x04, 0x60, 0xad]));
}

#[test]
fn middle_bytes_add_house_device_and_command() {
    for house in HOUSES {
        for device in DEVICES {
            for command in [Command::On, Command::Off] {
                let frame = make_command(house, Some(device), command).unwrap();
                let code = device.code();
                assert_eq!(u16::from(frame[2]), u16::from(house.code()) + code / 256);
                assert_eq!(u16::from(frame[3]), code % 256 + u16::from(command.code()));
            }
        }
    }
}

#[test]
fn different_commands_have_different_frames() {
    let mut seen: Vec<CM17ACommand> = Vec::new();
    for house in HOUSES {
        for device in DEVICES {
            for command in [Command::On, Command::Off] {
                seen.push(make_command(house, Some(device), command).unwrap());
            }
        }
        for command in HOUSE_COMMANDS {
            seen.push(make_command(house, None, command).unwrap());
        }
    }
    assert_eq!(seen.len(), 16 * (32 + 6));
    for i in 0..seen.len() {
        for j in 0..i {
            assert_ne!(seen[i], seen[j]);
        }
    }
}
