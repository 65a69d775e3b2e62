use vstd::prelude::*;

verus! {

/// An error code shown on the handset display (`E01` to `E08`).
#[derive(Debug, Clone, Copy, PartialEq, Eq, Structural)]
pub enum HandsetError {
    E01,
    E02,
    E03,
    E04,
    E05,
    E06,
    E07,
    E08,
}

impl HandsetError {
    /// The number shown after the `E`.
    pub open spec fn spec_code(self) -> u8 {
        match self {
            HandsetError::E01 => 1,
            HandsetError::E02 => 2,
            HandsetError::E03 => 3,
            HandsetError::E04 => 4,
            HandsetError::E05 => 5,
            HandsetError::E06 => 6,
            HandsetError::E07 => 7,
            HandsetError::E08 => 8,
        }
    }

    /// The argument byte of the error packet: one bit per error code.
    pub open spec fn spec_arg0(self) -> u8 {
        match self {
            HandsetError::E01 => 0x01,
            HandsetError::E02 => 0x02,
            HandsetError::E03 => 0x04,
            HandsetError::E04 => 0x08,
            HandsetError::E05 => 0x10,
            HandsetError::E06 => 0x20,
            HandsetError::E07 => 0x40,
            HandsetError::E08 => 0x80,
        }
    }

    pub fn arg0(self) -> (r: u8)
        ensures
            r == self.spec_arg0(),
    {
        match self {
            HandsetError::E01 => 0x01,
            HandsetError::E02 => 0x02,
            HandsetError::E03 => 0x04,
            HandsetError::E04 => 0x08,
            HandsetError::E05 => 0x10,
            HandsetError::E06 => 0x20,
            HandsetError::E07 => 0x40,
            HandsetError::E08 => 0x80,
        }
    }

    pub fn code(self) -> (r: u8)
        ensures
            r == self.spec_code(),
    {
        match self {
            HandsetError::E01 => 1,
            HandsetError::E02 => 2,
            HandsetError::E03 => 3,
            HandsetError::E04 => 4,
            HandsetError::E05 => 5,
            HandsetError::E06 => 6,
            HandsetError::E07 => 7,
            HandsetError::E08 => 8,
        }
    }
}

/// What the display shows while a memory preset is being programmed.
#[derive(Debug, Clone, Copy, PartialEq, Eq, Structural)]
pub enum ProgramCommand {
    Pending,
    Preset1,
    Preset2,
    Preset3,
    Preset4,
}

impl ProgramCommand {
    /// The argument byte of the program packet: zero while pending, else one
    /// bit per preset.
    pub open spec fn spec_arg0(self) -> u8 {
        match self {
            ProgramCommand::Pending => 0x00,
            ProgramCommand::Preset1 => 0x01,
            ProgramCommand::Preset2 => 0x02,
            ProgramCommand::Preset3 => 0x04,
            ProgramCommand::Preset4 => 0x08,
        }
    }

    pub fn arg0(self) -> (r: u8)
        ensures
            r == self.spec_arg0(),
    {
        match self {
            ProgramCommand::Pending => 0x00,
            ProgramCommand::Preset1 => 0x01,
            ProgramCommand::Preset2 => 0x02,
            ProgramCommand::Preset3 => 0x04,
            ProgramCommand::Preset4 => 0x08,
        }
    }
}

/// A command for the handset display, sent as one four-byte packet.
#[derive(Debug, Clone, Copy, PartialEq, Eq, Structural)]
pub enum DisplayCommand {
    Reset,
    Height(u16),
    Error(HandsetError),
    Program(ProgramCommand),
}

/// Every packet starts with this byte.
pub const PACKET_START: u8 = 0x01;

/// The second byte of a packet names its kind.
pub const KIND_HEIGHT: u8 = 0x01;
pub const KIND_ERROR: u8 = 0x02;
pub const KIND_RESET: u8 = 0x04;
pub const KIND_PROGRAM: u8 = 0x06;

impl DisplayCommand {
    /// The packet that carries this command: start byte, kind byte and two
    /// argument bytes. A height is sent big-endian in millimetres.
    pub open spec fn spec_packet(self) -> Seq<u8> {
        match self {
            DisplayCommand::Reset => seq![PACKET_START, KIND_RESET, 0x01u8, 0xaau8],
            DisplayCommand::Height(height_mm) => seq![
                PACKET_START,
                KIND_HEIGHT,
                (height_mm / 256) as u8,
                (height_mm % 256) as u8,
            ],
            DisplayCommand::Error(error) => seq![PACKET_START, KIND_ERROR, error.spec_arg0(), 0x00u8],
            DisplayCommand::Program(program) => seq![
                PACKET_START,
                KIND_PROGRAM,
                program.spec_arg0(),
                0x00u8,
            ],
        }
    }

    pub fn packet(self) -> (r: [u8; 4])
        ensures
            r@ == self.spec_packet(),
    {
        match self {
            DisplayCommand::Reset => [PACKET_START, KIND_RESET, 0x01, 0xaa],
            DisplayCommand::Height(height_mm) => {
                let hi = (height_mm / 256) as u8;
                let lo = (height_mm % 256) as u8;
                [PACKET_START, KIND_HEIGHT, hi, lo]
            },
            DisplayCommand::Error(error) => [PACKET_START, KIND_ERROR, error.arg0(), 0x00],
            DisplayCommand::Program(program) => [PACKET_START, KIND_PROGRAM, program.arg0(), 0x00],
        }
    }
}

/// The argument byte of an error packet is the single bit numbered one below
/// the error code: `E01` is bit 0, `E08` is bit 7.
pub proof fn lemma_error_arg0_is_code_bit(error: HandsetError)
    ensures
        error.spec_arg0() == (1u8 << ((error.spec_code() - 1) as u8)),
        1 <= error.spec_code() <= 8,
{
    assert((1u8 << 0u8) == 0x01u8) by (bit_vector);
    assert((1u8 << 1u8) == 0x02u8) by (bit_vector);
    assert((1u8 << 2u8) == 0x04u8) by (bit_vector);
    assert((1u8 << 3u8) == 0x08u8) by (bit_vector);
    assert((1u8 << 4u8) == 0x10u8) by (bit_vector);
    assert((1u8 << 5u8) == 0x20u8) by (bit_vector);
    assert((1u8 << 6u8) == 0x40u8) by (bit_vector);
    assert((1u8 << 7u8) == 0x80u8) by (bit_vector);
}

/// A height packet carries the height exactly: reading its two argument bytes
/// as a big-endian number gives the height back.
pub proof fn lemma_height_packet_round_trip(height_mm: u16)
    ensures
        DisplayCommand::Height(height_mm).spec_packet().len() == 4,
        DisplayCommand::Height(height_mm).spec_packet()[2] * 256
            + DisplayCommand::Height(height_mm).spec_packet()[3] == height_mm,
{
}

/// Every packet is four bytes long and starts with the start byte.
pub proof fn lemma_packet_shape(command: DisplayCommand)
    ensures
        command.spec_packet().len() == 4,
        command.spec_packet()[0] == PACKET_START,
{
}

/// Different commands are sent as different packets, so the display can tell
/// every command apart.
pub proof fn lemma_packet_injective(a: DisplayCommand, b: DisplayCommand)
    requires
        a.spec_packet() == b.spec_packet(),
    ensures
        a == b,
{
    assert(a.spec_packet()[1] == b.spec_packet()[1]);
    assert(a.spec_packet()[2] == b.spec_packet()[2]);
    assert(a.spec_packet()[3] == b.spec_packet()[3]);
    match (a, b) {
        (DisplayCommand::Height(x), DisplayCommand::Height(y)) => {
            lemma_height_packet_round_trip(x);
            lemma_height_packet_round_trip(y);
        },
        _ => {},
    }
}

} // verus!
