use jiecang_handset_controller::{DisplayCommand, HandsetError, ProgramCommand};

#[test]
fn display_packets_match_protocol() {
    assert_eq!(DisplayCommand::Reset.packet(), [0x01, 0x04, 0x01, 0xaa]);
    assert_eq!(
        DisplayCommand::Height(700).packet(),
        [0x01, 0x01, 0x02, 0xbc]
    );
    assert_eq!(
        DisplayCommand::Height(1000).packet(),
        [0x01, 0x01, 0x03, 0xe8]
    );
    assert_eq!(
        DisplayCommand::Height(1286).packet(),
        [0x01, 0x01, 0x05, 0x06]
    );
}

#[test]
fn error_packets_match_protocol() {
    let errors = [
        (HandsetError::E01, 0x01),
        (HandsetError::E02, 0x02),
        (HandsetError::E03, 0x04),
        (HandsetError::E04, 0x08),
        (HandsetError::E05, 0x10),
        (HandsetError::E06, 0x20),
        (HandsetError::E07, 0x40),
        (HandsetError::E08, 0x80),
    ];

    for (error, arg0) in errors {
        assert_eq!(
            DisplayCommand::Error(error).packet(),
            [0x01, 0x02, arg0, 0x00]
        );
    }
}

#[test]
fn program_packets_match_protocol() {
    let programs = [
        (ProgramCommand::Pending, 0x00),
        (ProgramCommand::Preset1, 0x01),
        (ProgramCommand::Preset2, 0x02),
        (ProgramCommand::Preset3, 0x04),
        (ProgramCommand::Preset4, 0x08),
    ];

    for (program, arg0) in programs {
        assert_eq!(
            DisplayCommand::Program(program).packet(),
            [0x01, 0x06, arg0, 0x00]
        );
    }
}

#[test]
fn error_codes_and_bits() {
    let errors = [
        HandsetError::E01,
        HandsetError::E02,
        HandsetError::E03,
        HandsetError::E04,
        HandsetError::E05,
        HandsetError::E06,
        HandsetError::E07,
        HandsetError::E08,
    ];
    for (i, error) in errors.into_iter().enumerate() {
        assert_eq!(error.code() as usize, i + 1);
        assert_eq!(error.arg0(), 1u8 << i);
    }
}

#[test]
fn height_packet_bytes_read_back_as_height() {
    for height in [0u16, 1, 255, 256, 600, 700, 1300, 0xabcd, u16::MAX] {
        let packet = DisplayCommand::Height(height).packet();
        assert_eq!(packet[0], 0x01);
        assert_eq!(packet[1], 0x01);
        assert_eq!(u16::from(packet[2]) * 256 + u16::from(packet[3]), height);
    }
}

#[test]
fn distinct_commands_give_distinct_packets() {
    let commands = [
        DisplayCommand::Reset,
        DisplayCommand::Height(0),
        DisplayCommand::Height(1),
        DisplayCommand::Height(0x0106),
        DisplayCommand::Error(HandsetError::E01),
        DisplayCommand::Error(HandsetError::E08),
        DisplayCommand::Program(ProgramCommand::Pending),
        DisplayCommand::Program(ProgramCommand::Preset1),
        DisplayCommand::Program(ProgramCommand::Preset4),
    ];
    for a in commands {
        for b in commands {
            assert_eq!(a == b, a.packet() == b.packet());
        }
    }
}
