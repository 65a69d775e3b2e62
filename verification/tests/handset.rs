use jiecang_handset_controller::{
    decrease_height, increase_height, ButtonLines, DisplayCommand, Handset, HandsetAction,
    HandsetButton, HandsetButtonState, HandsetError, MemorySlot, ProgramCommand,
    HELD_ADJUST_TICKS, MAX_HEIGHT_MM, MIN_HEIGHT_MM, RESET_REFRESH_TICKS, START_HEIGHT_MM,
};

fn lines(mask: u8) -> HandsetButtonState {
    HandsetButtonState::from_lines(ButtonLines::from_raw_low_mask(mask))
}

const NONE: u8 = 0b0000;
const UP: u8 = 0b1000;
const DOWN: u8 = 0b0100;
const M1: u8 = 0b1100;
const M2: u8 = 0b0010;
const M3: u8 = 0b0110;
const REC: u8 = 0b0001;

fn started() -> Handset {
    let mut handset = Handset::new(lines(NONE));
    for _ in 0..RESET_REFRESH_TICKS {
        handset.tick(lines(NONE));
    }
    handset
}

fn press(handset: &mut Handset, mask: u8) -> HandsetAction {
    let action = handset.tick(lines(mask)).action;
    handset.tick(lines(NONE));
    action
}

#[test]
fn start_up_shows_reset_then_height() {
    let mut handset = Handset::new(lines(NONE));
    assert_eq!(handset.packet(), [0x01, 0x04, 0x01, 0xaa]);
    for _ in 1..RESET_REFRESH_TICKS {
        let report = handset.tick(lines(UP));
        assert_eq!(report.action, HandsetAction::Idle);
        assert_eq!(handset.command(), DisplayCommand::Reset);
    }
    let report = handset.tick(lines(UP));
    assert_eq!(report.action, HandsetAction::ShowCommand);
    assert_eq!(handset.command(), DisplayCommand::Height(START_HEIGHT_MM));
    assert_eq!(handset.packet(), [0x01, 0x01, 0x02, 0xbc]);
    assert_eq!(handset.height_mm(), 700);
}

#[test]
fn button_state_from_lines() {
    let state = HandsetButtonState::from_lines(ButtonLines::new(false, true, true, false));
    assert_eq!(state.low_mask, 0b0110);
    assert_eq!(state.button, HandsetButton::M3);
    assert_eq!(lines(0b1111).button, HandsetButton::Unknown);
    assert_eq!(lines(NONE).button, HandsetButton::NoButton);
}

#[test]
fn decode_and_memory_slots() {
    assert_eq!(HandsetButton::decode(0b1000), HandsetButton::Up);
    assert_eq!(HandsetButton::decode(0b0100), HandsetButton::Down);
    assert_eq!(HandsetButton::decode(0b1100), HandsetButton::M1);
    assert_eq!(HandsetButton::decode(0b0010), HandsetButton::M2);
    assert_eq!(HandsetButton::decode(0b0110), HandsetButton::M3);
    assert_eq!(HandsetButton::decode(0b1010), HandsetButton::M4);
    assert_eq!(HandsetButton::decode(0b0001), HandsetButton::Rec);
    assert_eq!(HandsetButton::decode(0b0000), HandsetButton::NoButton);
    assert_eq!(HandsetButton::decode(0b1_1000), HandsetButton::Unknown);
    assert_eq!(HandsetButton::M3.memory_slot(), Some(MemorySlot::M3));
    assert_eq!(HandsetButton::Rec.memory_slot(), None);
    assert_eq!(MemorySlot::M1.index(), 0);
    assert_eq!(MemorySlot::M4.index(), 3);
    assert_eq!(MemorySlot::M2.program_command(), ProgramCommand::Preset2);
    assert_eq!(MemorySlot::M3.empty_error(), HandsetError::E03);
}

#[test]
fn height_steps_clamp_at_limits() {
    assert_eq!(increase_height(700), 710);
    assert_eq!(increase_height(1295), MAX_HEIGHT_MM);
    assert_eq!(increase_height(1300), 1300);
    assert_eq!(decrease_height(700), 690);
    assert_eq!(decrease_height(605), MIN_HEIGHT_MM);
    assert_eq!(decrease_height(600), 600);
    assert_eq!(decrease_height(0), 600);
    assert_eq!(increase_height(u16::MAX), 1300);
    for h in MIN_HEIGHT_MM..=MAX_HEIGHT_MM - 10 {
        assert_eq!(decrease_height(increase_height(h)), h);
    }
}

#[test]
fn up_steps_and_holding_repeats() {
    let mut handset = started();
    let report = handset.tick(lines(UP));
    assert_eq!(report.action, HandsetAction::ShowCommand);
    assert!(report.buttons_changed);
    assert_eq!(handset.height_mm(), 710);
    for _ in 1..HELD_ADJUST_TICKS {
        let report = handset.tick(lines(UP));
        assert_eq!(report.action, HandsetAction::Idle);
        assert!(!report.buttons_changed);
        assert_eq!(handset.height_mm(), 710);
    }
    assert_eq!(handset.tick(lines(UP)).action, HandsetAction::ShowCommand);
    assert_eq!(handset.height_mm(), 720);
    assert_eq!(handset.packet(), [0x01, 0x01, 0x02, 0xd0]);
    handset.tick(lines(NONE));
    assert_eq!(press(&mut handset, DOWN), HandsetAction::ShowCommand);
    assert_eq!(handset.height_mm(), 710);
}

#[test]
fn height_never_leaves_limits() {
    let mut handset = started();
    for _ in 0..400 {
        handset.tick(lines(UP));
    }
    assert_eq!(handset.height_mm(), MAX_HEIGHT_MM);
    assert_eq!(handset.tick(lines(UP)).action, HandsetAction::Idle);
    handset.tick(lines(NONE));
    for _ in 0..600 {
        handset.tick(lines(DOWN));
    }
    assert_eq!(handset.height_mm(), MIN_HEIGHT_MM);
}

#[test]
fn save_and_recall_preset() {
    let mut handset = started();
    assert_eq!(press(&mut handset, M2), HandsetAction::MemoryEmpty(MemorySlot::M2));
    assert_eq!(handset.command(), DisplayCommand::Error(HandsetError::E02));

    assert_eq!(press(&mut handset, REC), HandsetAction::SaveToggled(true));
    assert!(handset.save_armed());
    assert_eq!(handset.packet(), [0x01, 0x06, 0x00, 0x00]);
    assert_eq!(press(&mut handset, M2), HandsetAction::MemorySaved(MemorySlot::M2, 700));
    assert!(!handset.save_armed());
    assert_eq!(handset.memory(MemorySlot::M2), Some(700));
    assert_eq!(handset.memory(MemorySlot::M1), None);
    assert_eq!(handset.packet(), [0x01, 0x06, 0x02, 0x00]);

    press(&mut handset, UP);
    press(&mut handset, UP);
    assert_eq!(handset.height_mm(), 720);
    assert_eq!(press(&mut handset, M2), HandsetAction::MemoryRecalled(MemorySlot::M2, 700));
    assert_eq!(handset.height_mm(), 700);
    assert_eq!(handset.command(), DisplayCommand::Height(700));
}

#[test]
fn rec_twice_cancels_save() {
    let mut handset = started();
    assert_eq!(press(&mut handset, REC), HandsetAction::SaveToggled(true));
    assert_eq!(press(&mut handset, REC), HandsetAction::SaveToggled(false));
    assert!(!handset.save_armed());
    assert_eq!(handset.command(), DisplayCommand::Height(700));
    assert_eq!(press(&mut handset, M1), HandsetAction::MemoryEmpty(MemorySlot::M1));
    assert_eq!(press(&mut handset, M3), HandsetAction::MemoryEmpty(MemorySlot::M3));
    assert_eq!(handset.packet(), [0x01, 0x02, 0x04, 0x00]);
}

#[test]
fn unknown_lines_do_nothing() {
    let mut handset = started();
    let report = handset.tick(lines(0b0011));
    assert!(report.buttons_changed);
    assert_eq!(report.action, HandsetAction::Idle);
    let report = handset.tick(lines(0b1111));
    assert!(report.buttons_changed);
    assert_eq!(report.action, HandsetAction::Idle);
    assert_eq!(handset.height_mm(), 700);
    let report = handset.tick(lines(0b1111));
    assert!(!report.buttons_changed);
}
