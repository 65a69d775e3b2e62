use crate::buttons::{spec_decode_button, spec_decode_button_mask, Button, ButtonLines, ButtonReading};
use crate::display::{DisplayCommand, HandsetError, ProgramCommand};
use vstd::arithmetic::power2::{lemma2_to64, pow2};
use vstd::prelude::*;

verus! {

/// The height shown after start-up, in millimetres.
pub const START_HEIGHT_MM: u16 = 700;

/// The lowest height the handset goes to, in millimetres.
pub const MIN_HEIGHT_MM: u16 = 600;

/// The highest height the handset goes to, in millimetres.
pub const MAX_HEIGHT_MM: u16 = 1300;

/// How far one step of Up or Down moves, in millimetres.
pub const HEIGHT_STEP_MM: u16 = 10;

/// The number of memory presets (M1 to M4).
pub const MEMORY_SLOT_COUNT: usize = 4;

/// How many ticks the display keeps receiving the reset packet after start-up.
pub const RESET_REFRESH_TICKS: u16 = 20;

/// How many ticks Up or Down must stay held for one further step.
pub const HELD_ADJUST_TICKS: u8 = 4;

/// A button as the handset firmware sees its four lines.
#[derive(Debug, Clone, Copy, PartialEq, Eq, Structural)]
pub enum HandsetButton {
    NoButton,
    Up,
    Down,
    M1,
    M2,
    M3,
    M4,
    Rec,
    Unknown,
}

/// One of the four memory presets.
#[derive(Debug, Clone, Copy, PartialEq, Eq, Structural)]
pub enum MemorySlot {
    M1,
    M2,
    M3,
    M4,
}

impl HandsetButton {
    /// The button that a low mask shows; every mask other than the eight
    /// documented ones (no line low, or one button's lines) is unknown.
    pub open spec fn spec_decode(low_mask: u8) -> HandsetButton {
        if low_mask == 0b0000 {
            HandsetButton::NoButton
        } else if low_mask == 0b1000 {
            HandsetButton::Up
        } else if low_mask == 0b0100 {
            HandsetButton::Down
        } else if low_mask == 0b1100 {
            HandsetButton::M1
        } else if low_mask == 0b0010 {
            HandsetButton::M2
        } else if low_mask == 0b0110 {
            HandsetButton::M3
        } else if low_mask == 0b1010 {
            HandsetButton::M4
        } else if low_mask == 0b0001 {
            HandsetButton::Rec
        } else {
            HandsetButton::Unknown
        }
    }

    /// The memory preset a button selects, if it is one of M1 to M4.
    pub open spec fn spec_memory_slot(self) -> Option<MemorySlot> {
        match self {
            HandsetButton::M1 => Some(MemorySlot::M1),
            HandsetButton::M2 => Some(MemorySlot::M2),
            HandsetButton::M3 => Some(MemorySlot::M3),
            HandsetButton::M4 => Some(MemorySlot::M4),
            _ => None,
        }
    }

    pub fn decode(low_mask: u8) -> (r: Self)
        ensures
            r == Self::spec_decode(low_mask),
    {
        match low_mask {
            0b0000 => HandsetButton::NoButton,
            0b1000 => HandsetButton::Up,
            0b0100 => HandsetButton::Down,
            0b1100 => HandsetButton::M1,
            0b0010 => HandsetButton::M2,
            0b0110 => HandsetButton::M3,
            0b1010 => HandsetButton::M4,
            0b0001 => HandsetButton::Rec,
            _ => HandsetButton::Unknown,
        }
    }

    pub fn memory_slot(self) -> (r: Option<MemorySlot>)
        ensures
            r == self.spec_memory_slot(),
    {
        match self {
            HandsetButton::M1 => Some(MemorySlot::M1),
            HandsetButton::M2 => Some(MemorySlot::M2),
            HandsetButton::M3 => Some(MemorySlot::M3),
            HandsetButton::M4 => Some(MemorySlot::M4),
            _ => None,
        }
    }
}

impl MemorySlot {
    /// The position of the preset among the stored heights.
    pub open spec fn spec_index(self) -> int {
        match self {
            MemorySlot::M1 => 0,
            MemorySlot::M2 => 1,
            MemorySlot::M3 => 2,
            MemorySlot::M4 => 3,
        }
    }

    /// What the display shows once a height is saved to the preset.
    pub open spec fn spec_program_command(self) -> ProgramCommand {
        match self {
            MemorySlot::M1 => ProgramCommand::Preset1,
            MemorySlot::M2 => ProgramCommand::Preset2,
            MemorySlot::M3 => ProgramCommand::Preset3,
            MemorySlot::M4 => ProgramCommand::Preset4,
        }
    }

    /// The error the display shows when the preset is recalled while empty.
    pub open spec fn spec_empty_error(self) -> HandsetError {
        match self {
            MemorySlot::M1 => HandsetError::E01,
            MemorySlot::M2 => HandsetError::E02,
            MemorySlot::M3 => HandsetError::E03,
            MemorySlot::M4 => HandsetError::E04,
        }
    }

    /// The button that selects the preset.
    pub open spec fn spec_button(self) -> HandsetButton {
        match self {
            MemorySlot::M1 => HandsetButton::M1,
            MemorySlot::M2 => HandsetButton::M2,
            MemorySlot::M3 => HandsetButton::M3,
            MemorySlot::M4 => HandsetButton::M4,
        }
    }

    pub fn index(self) -> (r: usize)
        ensures
            r == self.spec_index(),
            r < MEMORY_SLOT_COUNT,
    {
        proof {
            lemma2_to64();
        }
        match self {
            MemorySlot::M1 => 0,
            MemorySlot::M2 => 1,
            MemorySlot::M3 => 2,
            MemorySlot::M4 => 3,
        }
    }

    pub fn program_command(self) -> (r: ProgramCommand)
        ensures
            r == self.spec_program_command(),
            r.spec_arg0() as nat == pow2(self.spec_index() as nat),
    {
        proof {
            lemma2_to64();
        }
        match self {
            MemorySlot::M1 => ProgramCommand::Preset1,
            MemorySlot::M2 => ProgramCommand::Preset2,
            MemorySlot::M3 => ProgramCommand::Preset3,
            MemorySlot::M4 => ProgramCommand::Preset4,
        }
    }

    pub fn empty_error(self) -> (r: HandsetError)
        ensures
            r == self.spec_empty_error(),
            r.spec_code() == self.spec_index() + 1,
    {
        match self {
            MemorySlot::M1 => HandsetError::E01,
            MemorySlot::M2 => HandsetError::E02,
            MemorySlot::M3 => HandsetError::E03,
            MemorySlot::M4 => HandsetError::E04,
        }
    }
}

/// The four handset lines at one moment: their low mask and the button it
/// shows.
#[derive(Debug, Clone, Copy, PartialEq, Eq, Structural)]
pub struct HandsetButtonState {
    pub low_mask: u8,
    pub button: HandsetButton,
}

impl HandsetButtonState {
    pub fn from_lines(lines: ButtonLines) -> (r: Self)
        ensures
            r.low_mask == lines.spec_raw_low_mask(),
            r.button == HandsetButton::spec_decode(r.low_mask),
    {
        let low_mask = lines.raw_low_mask();
        HandsetButtonState { low_mask, button: HandsetButton::decode(low_mask) }
    }
}

/// One step up: the height plus one step, but no more than the maximum.
pub open spec fn spec_increase_height(height_mm: u16) -> u16 {
    if height_mm + HEIGHT_STEP_MM <= MAX_HEIGHT_MM {
        (height_mm + HEIGHT_STEP_MM) as u16
    } else {
        MAX_HEIGHT_MM
    }
}

/// One step down: the height minus one step, but no less than the minimum.
pub open spec fn spec_decrease_height(height_mm: u16) -> u16 {
    if height_mm - HEIGHT_STEP_MM >= MIN_HEIGHT_MM {
        (height_mm - HEIGHT_STEP_MM) as u16
    } else {
        MIN_HEIGHT_MM
    }
}

pub fn increase_height(height_mm: u16) -> (r: u16)
    ensures
        r == spec_increase_height(height_mm),
{
    if height_mm > MAX_HEIGHT_MM - HEIGHT_STEP_MM {
        MAX_HEIGHT_MM
    } else {
        height_mm + HEIGHT_STEP_MM
    }
}

pub fn decrease_height(height_mm: u16) -> (r: u16)
    ensures
        r == spec_decrease_height(height_mm),
{
    if height_mm < MIN_HEIGHT_MM + HEIGHT_STEP_MM {
        MIN_HEIGHT_MM
    } else {
        height_mm - HEIGHT_STEP_MM
    }
}

/// What a tick or a button press did, beside the packet the display now
/// receives; every kind but `Idle` means the display command was set anew.
#[derive(Debug, Clone, Copy, PartialEq, Eq, Structural)]
pub enum HandsetAction {
    /// Nothing changed on the display.
    Idle,
    /// The display command changed (a new height, or the end of the reset).
    ShowCommand,
    /// Rec armed (`true`) or cancelled (`false`) saving to a preset.
    SaveToggled(bool),
    /// The height was saved to the preset.
    MemorySaved(MemorySlot, u16),
    /// The preset's height became the current height.
    MemoryRecalled(MemorySlot, u16),
    /// The preset was recalled while empty; the display shows its error.
    MemoryEmpty(MemorySlot),
}

/// What one tick observed and did.
#[derive(Debug, Clone, Copy, PartialEq, Eq, Structural)]
pub struct TickReport {
    /// The lines differ from those of the previous tick.
    pub buttons_changed: bool,
    pub action: HandsetAction,
}

/// The state of a handset: the height it shows, its presets, whether Rec
/// armed a save, the start-up and hold counters, the command the display
/// receives and the lines seen last.
pub struct Handset {
    height_mm: u16,
    memories: [Option<u16>; MEMORY_SLOT_COUNT],
    save_armed: bool,
    reset_refreshes_remaining: u16,
    held_adjust_ticks: u8,
    command: DisplayCommand,
    previous_buttons: HandsetButtonState,
}

/// The mathematical state of a [`Handset`].
pub struct HandsetView {
    pub height_mm: u16,
    pub memories: Seq<Option<u16>>,
    pub save_armed: bool,
    pub reset_refreshes_remaining: u16,
    pub held_adjust_ticks: u8,
    pub command: DisplayCommand,
    pub previous_buttons: HandsetButtonState,
}

/// A height the handset can show.
pub open spec fn height_in_range(height_mm: u16) -> bool {
    MIN_HEIGHT_MM <= height_mm <= MAX_HEIGHT_MM
}

/// The height after one Up or Down step; other buttons leave it.
pub open spec fn spec_adjusted_height(button: HandsetButton, height_mm: u16) -> u16 {
    match button {
        HandsetButton::Up => spec_increase_height(height_mm),
        HandsetButton::Down => spec_decrease_height(height_mm),
        _ => height_mm,
    }
}

impl HandsetView {
    /// The state every handset keeps: the height and all presets within the
    /// limits, four presets, and the counters within their periods.
    pub open spec fn wf(self) -> bool {
        &&& height_in_range(self.height_mm)
        &&& self.memories.len() == MEMORY_SLOT_COUNT
        &&& forall|i: int|
            0 <= i < self.memories.len() ==> (#[trigger] self.memories[i] matches Some(h)
                ==> height_in_range(h))
        &&& self.reset_refreshes_remaining <= RESET_REFRESH_TICKS
        &&& self.held_adjust_ticks < HELD_ADJUST_TICKS
    }

    /// The state right after start-up, with the lines first read.
    pub open spec fn initial(buttons: HandsetButtonState) -> HandsetView {
        HandsetView {
            height_mm: START_HEIGHT_MM,
            memories: seq![None, None, None, None],
            save_armed: false,
            reset_refreshes_remaining: RESET_REFRESH_TICKS,
            held_adjust_ticks: 0,
            command: DisplayCommand::Reset,
            previous_buttons: buttons,
        }
    }

    /// The state showing `height_mm` as the current height.
    pub open spec fn showing_height(self, height_mm: u16) -> HandsetView {
        HandsetView { height_mm, command: DisplayCommand::Height(height_mm), ..self }
    }

    /// One Up or Down step: a changed height is shown, an unchanged one
    /// (at a limit) changes nothing.
    pub open spec fn adjust(self, button: HandsetButton) -> (HandsetView, HandsetAction) {
        let next = spec_adjusted_height(button, self.height_mm);
        if next != self.height_mm {
            (self.showing_height(next), HandsetAction::ShowCommand)
        } else {
            (self, HandsetAction::Idle)
        }
    }

    /// A new press of `button`: Up and Down step; Rec arms or cancels a save;
    /// a preset saves the height when armed, else recalls its height, or
    /// shows its error when empty; anything else does nothing.
    pub open spec fn press(self, button: HandsetButton) -> (HandsetView, HandsetAction) {
        match button {
            HandsetButton::Up | HandsetButton::Down => self.adjust(button),
            HandsetButton::Rec => {
                let armed = !self.save_armed;
                (
                    HandsetView {
                        save_armed: armed,
                        command: if armed {
                            DisplayCommand::Program(ProgramCommand::Pending)
                        } else {
                            DisplayCommand::Height(self.height_mm)
                        },
                        ..self
                    },
                    HandsetAction::SaveToggled(armed),
                )
            },
            _ => match button.spec_memory_slot() {
                Some(slot) => {
                    let i = slot.spec_index();
                    if self.save_armed {
                        (
                            HandsetView {
                                memories: self.memories.update(i, Some(self.height_mm)),
                                save_armed: false,
                                command: DisplayCommand::Program(slot.spec_program_command()),
                                ..self
                            },
                            HandsetAction::MemorySaved(slot, self.height_mm),
                        )
                    } else {
                        match self.memories[i] {
                            Some(saved) => (
                                self.showing_height(saved),
                                HandsetAction::MemoryRecalled(slot, saved),
                            ),
                            None => (
                                HandsetView {
                                    command: DisplayCommand::Error(slot.spec_empty_error()),
                                    ..self
                                },
                                HandsetAction::MemoryEmpty(slot),
                            ),
                        }
                    }
                },
                None => (self, HandsetAction::Idle),
            },
        }
    }

    /// The decision of one tick, before the lines are remembered: while the
    /// reset is still shown, count it down and show the height at its end;
    /// else a changed button restarts the hold count and, unless released,
    /// is a press; a held Up or Down steps again every few ticks; anything
    /// else restarts the hold count.
    pub open spec fn decide(self, buttons: HandsetButtonState) -> (HandsetView, HandsetAction) {
        if self.reset_refreshes_remaining > 0 {
            let remaining = (self.reset_refreshes_remaining - 1) as u16;
            if remaining == 0 {
                (
                    HandsetView { reset_refreshes_remaining: remaining, ..self }.showing_height(
                        self.height_mm,
                    ),
                    HandsetAction::ShowCommand,
                )
            } else {
                (
                    HandsetView { reset_refreshes_remaining: remaining, ..self },
                    HandsetAction::Idle,
                )
            }
        } else if buttons.button != self.previous_buttons.button {
            let restarted = HandsetView { held_adjust_ticks: 0, ..self };
            if buttons.button != HandsetButton::NoButton {
                restarted.press(buttons.button)
            } else {
                (restarted, HandsetAction::Idle)
            }
        } else if buttons.button == HandsetButton::Up || buttons.button == HandsetButton::Down {
            let held = self.held_adjust_ticks + 1;
            if held >= HELD_ADJUST_TICKS {
                HandsetView { held_adjust_ticks: 0, ..self }.adjust(buttons.button)
            } else {
                (HandsetView { held_adjust_ticks: held as u8, ..self }, HandsetAction::Idle)
            }
        } else {
            (HandsetView { held_adjust_ticks: 0, ..self }, HandsetAction::Idle)
        }
    }

    /// One tick with the lines `buttons`: the decision, then the lines are
    /// remembered for the next tick.
    pub open spec fn tick(self, buttons: HandsetButtonState) -> (HandsetView, TickReport) {
        let (decided, action) = self.decide(buttons);
        (
            HandsetView { previous_buttons: buttons, ..decided },
            TickReport { buttons_changed: buttons != self.previous_buttons, action },
        )
    }
}

impl View for Handset {
    type V = HandsetView;

    closed spec fn view(&self) -> HandsetView {
        HandsetView {
            height_mm: self.height_mm,
            memories: self.memories@,
            save_armed: self.save_armed,
            reset_refreshes_remaining: self.reset_refreshes_remaining,
            held_adjust_ticks: self.held_adjust_ticks,
            command: self.command,
            previous_buttons: self.previous_buttons,
        }
    }
}

impl Handset {
    #[verifier::type_invariant]
    spec fn inv(self) -> bool {
        self@.wf()
    }

    pub fn new(initial_buttons: HandsetButtonState) -> (r: Self)
        ensures
            r@ == HandsetView::initial(initial_buttons),
            r@.wf(),
            r@.height_mm == START_HEIGHT_MM,
            r@.memories.len() == MEMORY_SLOT_COUNT,
            forall|i: int| 0 <= i < MEMORY_SLOT_COUNT ==> #[trigger] r@.memories[i] is None,
            !r@.save_armed,
            r@.reset_refreshes_remaining == RESET_REFRESH_TICKS,
            r@.held_adjust_ticks == 0,
            r@.command == DisplayCommand::Reset,
            r@.previous_buttons == initial_buttons,
    {
        let r = Handset {
            height_mm: START_HEIGHT_MM,
            memories: [None; MEMORY_SLOT_COUNT],
            save_armed: false,
            reset_refreshes_remaining: RESET_REFRESH_TICKS,
            held_adjust_ticks: 0,
            command: DisplayCommand::Reset,
            previous_buttons: initial_buttons,
        };
        assert(r@.memories =~= seq![None, None, None, None]);
        r
    }

    pub fn height_mm(&self) -> (r: u16)
        ensures
            r == self@.height_mm,
            height_in_range(r),
    {
        proof {
            use_type_invariant(self);
        }
        self.height_mm
    }

    pub fn save_armed(&self) -> (r: bool)
        ensures
            r == self@.save_armed,
    {
        self.save_armed
    }

    pub fn memory(&self, slot: MemorySlot) -> (r: Option<u16>)
        ensures
            r == self@.memories[slot.spec_index()],
    {
        proof {
            use_type_invariant(self);
        }
        self.memories[slot.index()]
    }

    pub fn command(&self) -> (r: DisplayCommand)
        ensures
            r == self@.command,
    {
        self.command
    }

    /// The packet the display receives now.
    pub fn packet(&self) -> (r: [u8; 4])
        ensures
            r@ == self@.command.spec_packet(),
    {
        self.command.packet()
    }

    fn show_height(&mut self, height_mm: u16)
        requires
            height_in_range(height_mm),
        ensures
            final(self)@ == old(self)@.showing_height(height_mm),
    {
        proof {
            use_type_invariant(&*self);
        }
        self.height_mm = height_mm;
        self.command = DisplayCommand::Height(height_mm);
    }

    fn adjust_height(&mut self, button: HandsetButton) -> (r: HandsetAction)
        ensures
            (final(self)@, r) == old(self)@.adjust(button),
    {
        proof {
            use_type_invariant(&*self);
        }
        let next_height_mm = match button {
            HandsetButton::Up => increase_height(self.height_mm),
            HandsetButton::Down => decrease_height(self.height_mm),
            _ => self.height_mm,
        };

        if next_height_mm != self.height_mm {
            self.show_height(next_height_mm);
            HandsetAction::ShowCommand
        } else {
            HandsetAction::Idle
        }
    }

    fn handle_button_press(&mut self, button: HandsetButton) -> (r: HandsetAction)
        ensures
            (final(self)@, r) == old(self)@.press(button),
    {
        proof {
            use_type_invariant(&*self);
        }
        match button {
            HandsetButton::Up | HandsetButton::Down => self.adjust_height(button),
            HandsetButton::Rec => {
                let armed = !self.save_armed;
                self.save_armed = armed;
                if armed {
                    self.command = DisplayCommand::Program(ProgramCommand::Pending);
                } else {
                    self.command = DisplayCommand::Height(self.height_mm);
                }
                HandsetAction::SaveToggled(armed)
            },
            _ => {
                if let Some(slot) = button.memory_slot() {
                    let slot_index = slot.index();

                    if self.save_armed {
                        let mut memories = self.memories;
                        memories[slot_index] = Some(self.height_mm);
                        assert(memories@ =~= self@.memories.update(
                            slot.spec_index(),
                            Some(self.height_mm),
                        ));
                        self.memories = memories;
                        self.save_armed = false;
                        self.command = DisplayCommand::Program(slot.program_command());
                        HandsetAction::MemorySaved(slot, self.height_mm)
                    } else if let Some(saved_height_mm) = self.memories[slot_index] {
                        assert(self@.memories[slot.spec_index()] == Some(saved_height_mm));
                        self.show_height(saved_height_mm);
                        HandsetAction::MemoryRecalled(slot, saved_height_mm)
                    } else {
                        self.command = DisplayCommand::Error(slot.empty_error());
                        HandsetAction::MemoryEmpty(slot)
                    }
                } else {
                    HandsetAction::Idle
                }
            },
        }
    }

    /// One pass of the handset loop after the lines were read: decide what the
    /// display shows next and remember the lines.
    pub fn tick(&mut self, buttons: HandsetButtonState) -> (r: TickReport)
        ensures
            (final(self)@, r) == old(self)@.tick(buttons),
            final(self)@.wf(),
    {
        proof {
            use_type_invariant(&*self);
        }
        let buttons_changed = buttons != self.previous_buttons;
        let action;

        if self.reset_refreshes_remaining > 0 {
            self.reset_refreshes_remaining = self.reset_refreshes_remaining - 1;

            if self.reset_refreshes_remaining == 0 {
                self.command = DisplayCommand::Height(self.height_mm);
                action = HandsetAction::ShowCommand;
            } else {
                action = HandsetAction::Idle;
            }
        } else if buttons.button != self.previous_buttons.button {
            self.held_adjust_ticks = 0;

            if buttons.button != HandsetButton::NoButton {
                action = self.handle_button_press(buttons.button);
            } else {
                action = HandsetAction::Idle;
            }
        } else if buttons.button == HandsetButton::Up || buttons.button == HandsetButton::Down {
            let held = self.held_adjust_ticks + 1;

            if held >= HELD_ADJUST_TICKS {
                self.held_adjust_ticks = 0;
                action = self.adjust_height(buttons.button);
            } else {
                self.held_adjust_ticks = held;
                action = HandsetAction::Idle;
            }
        } else {
            self.held_adjust_ticks = 0;
            action = HandsetAction::Idle;
        }

        self.previous_buttons = buttons;
        proof {
            use_type_invariant(&*self);
        }
        TickReport { buttons_changed, action }
    }
}

/// Every tick keeps the handset's state well formed: the height and all
/// presets stay between the minimum and the maximum height.
pub proof fn lemma_tick_preserves_wf(state: HandsetView, buttons: HandsetButtonState)
    requires
        state.wf(),
    ensures
        state.tick(buttons).0.wf(),
{
}

/// A step up or down stays within the limits, moves by at most one step and
/// in its own direction, and away from the limits one step down undoes one
/// step up and the reverse.
pub proof fn lemma_height_steps(height_mm: u16)
    requires
        height_in_range(height_mm),
    ensures
        height_in_range(spec_increase_height(height_mm)),
        height_in_range(spec_decrease_height(height_mm)),
        height_mm <= spec_increase_height(height_mm) <= height_mm + HEIGHT_STEP_MM,
        height_mm - HEIGHT_STEP_MM <= spec_decrease_height(height_mm) <= height_mm,
        height_mm <= MAX_HEIGHT_MM - HEIGHT_STEP_MM ==> spec_decrease_height(
            spec_increase_height(height_mm),
        ) == height_mm,
        height_mm >= MIN_HEIGHT_MM + HEIGHT_STEP_MM ==> spec_increase_height(
            spec_decrease_height(height_mm),
        ) == height_mm,
        spec_increase_height(height_mm) == height_mm <==> height_mm == MAX_HEIGHT_MM,
        spec_decrease_height(height_mm) == height_mm <==> height_mm == MIN_HEIGHT_MM,
{
}

/// Each preset is selected by its own button.
pub proof fn lemma_slot_button(slot: MemorySlot)
    ensures
        slot.spec_button().spec_memory_slot() == Some(slot),
        0 <= slot.spec_index() < MEMORY_SLOT_COUNT,
{
}

/// After Rec armed a save, pressing a preset saves the current height to it
/// and ends the save; pressing the same preset again recalls that height.
pub proof fn lemma_save_then_recall(state: HandsetView, slot: MemorySlot)
    requires
        state.wf(),
        state.save_armed,
    ensures
        ({
            let (saved, saved_action) = state.press(slot.spec_button());
            let (recalled, recalled_action) = saved.press(slot.spec_button());
            &&& saved.memories[slot.spec_index()] == Some(state.height_mm)
            &&& !saved.save_armed
            &&& saved.height_mm == state.height_mm
            &&& saved.command == DisplayCommand::Program(slot.spec_program_command())
            &&& saved_action == HandsetAction::MemorySaved(slot, state.height_mm)
            &&& recalled.height_mm == state.height_mm
            &&& recalled.command == DisplayCommand::Height(state.height_mm)
            &&& recalled_action == HandsetAction::MemoryRecalled(slot, state.height_mm)
        }),
{
}

/// Saving to a preset changes no other preset.
pub proof fn lemma_save_keeps_other_presets(state: HandsetView, slot: MemorySlot, other: MemorySlot)
    requires
        state.wf(),
        state.save_armed,
        other != slot,
    ensures
        state.press(slot.spec_button()).0.memories[other.spec_index()]
            == state.memories[other.spec_index()],
{
}

/// Without an armed save, a preset that holds a height makes it the current
/// height and changes no preset.
pub proof fn lemma_recall(state: HandsetView, slot: MemorySlot, saved_mm: u16)
    requires
        state.wf(),
        !state.save_armed,
        state.memories[slot.spec_index()] == Some(saved_mm),
    ensures
        state.press(slot.spec_button()).0 == state.showing_height(saved_mm),
        state.press(slot.spec_button()).1 == HandsetAction::MemoryRecalled(slot, saved_mm),
{
}

/// Without an armed save, an empty preset shows its error and changes
/// nothing else.
pub proof fn lemma_empty_preset(state: HandsetView, slot: MemorySlot)
    requires
        state.wf(),
        !state.save_armed,
        state.memories[slot.spec_index()] is None,
    ensures
        state.press(slot.spec_button()).0 == (HandsetView {
            command: DisplayCommand::Error(slot.spec_empty_error()),
            ..state
        }),
        state.press(slot.spec_button()).1 == HandsetAction::MemoryEmpty(slot),
{
}

/// Rec pressed twice leaves height, presets and the armed flag as they were;
/// from an unarmed handset it first shows the pending program, then the
/// height again.
pub proof fn lemma_rec_twice(state: HandsetView)
    ensures
        ({
            let (armed, first) = state.press(HandsetButton::Rec);
            let (back, second) = armed.press(HandsetButton::Rec);
            &&& armed.save_armed == !state.save_armed
            &&& first == HandsetAction::SaveToggled(!state.save_armed)
            &&& second == HandsetAction::SaveToggled(state.save_armed)
            &&& back.save_armed == state.save_armed
            &&& back.height_mm == state.height_mm
            &&& back.memories == state.memories
            &&& !state.save_armed ==> armed.command == DisplayCommand::Program(
                ProgramCommand::Pending,
            ) && back.command == DisplayCommand::Height(state.height_mm)
        }),
{
}

/// While the start-up reset is still shown, buttons do nothing: a tick keeps
/// height, presets and armed flag, and shows the height exactly when the last
/// reset tick passes.
pub proof fn lemma_reset_ignores_buttons(state: HandsetView, buttons: HandsetButtonState)
    requires
        state.reset_refreshes_remaining > 0,
    ensures
        ({
            let (next, report) = state.tick(buttons);
            &&& next.height_mm == state.height_mm
            &&& next.memories == state.memories
            &&& next.save_armed == state.save_armed
            &&& next.reset_refreshes_remaining == state.reset_refreshes_remaining - 1
            &&& next.command == if state.reset_refreshes_remaining == 1 {
                DisplayCommand::Height(state.height_mm)
            } else {
                state.command
            }
            &&& report.action == if state.reset_refreshes_remaining == 1 {
                HandsetAction::ShowCommand
            } else {
                HandsetAction::Idle
            }
        }),
{
}

/// The state after the ticks `readings`, one after another.
pub open spec fn ticks(state: HandsetView, readings: Seq<HandsetButtonState>) -> HandsetView
    decreases readings.len(),
{
    if readings.len() == 0 {
        state
    } else {
        ticks(state, readings.drop_last()).tick(readings.last()).0
    }
}

/// After start-up the display receives the reset packet for the first
/// `RESET_REFRESH_TICKS - 1` ticks, whatever the buttons do, and from the
/// last of the `RESET_REFRESH_TICKS` ticks on it shows the start height.
pub proof fn lemma_start_up(first: HandsetButtonState, readings: Seq<HandsetButtonState>)
    requires
        readings.len() <= RESET_REFRESH_TICKS,
    ensures
        ({
            let state = ticks(HandsetView::initial(first), readings);
            &&& state.height_mm == START_HEIGHT_MM
            &&& state.memories == HandsetView::initial(first).memories
            &&& !state.save_armed
            &&& state.reset_refreshes_remaining == RESET_REFRESH_TICKS - readings.len()
            &&& state.command == if readings.len() == RESET_REFRESH_TICKS {
                DisplayCommand::Height(START_HEIGHT_MM)
            } else {
                DisplayCommand::Reset
            }
        }),
    decreases readings.len(),
{
    if readings.len() > 0 {
        lemma_start_up(first, readings.drop_last());
    }
}

/// Holding Up or Down (after start-up) steps the height once every
/// `HELD_ADJUST_TICKS` ticks: on the tick that completes the period the
/// height moves one step in the button's direction, clamped to the limits, a
/// changed height is shown, and the hold count restarts; on the other ticks
/// only the hold count grows. Presets and the armed flag stay.
pub proof fn lemma_held_step(state: HandsetView, buttons: HandsetButtonState)
    requires
        state.wf(),
        state.reset_refreshes_remaining == 0,
        buttons.button == HandsetButton::Up || buttons.button == HandsetButton::Down,
        state.previous_buttons.button == buttons.button,
    ensures
        ({
            let (next, report) = state.tick(buttons);
            let h = state.height_mm;
            &&& next.memories == state.memories
            &&& next.save_armed == state.save_armed
            &&& state.held_adjust_ticks == HELD_ADJUST_TICKS - 1 ==> {
                &&& next.held_adjust_ticks == 0
                &&& buttons.button == HandsetButton::Up ==> next.height_mm == if h
                    + HEIGHT_STEP_MM <= MAX_HEIGHT_MM {
                    h + HEIGHT_STEP_MM
                } else {
                    MAX_HEIGHT_MM as int
                }
                &&& buttons.button == HandsetButton::Down ==> next.height_mm == if h
                    - HEIGHT_STEP_MM >= MIN_HEIGHT_MM {
                    h - HEIGHT_STEP_MM
                } else {
                    MIN_HEIGHT_MM as int
                }
                &&& next.height_mm != h ==> next.command == DisplayCommand::Height(next.height_mm)
                    && report.action == HandsetAction::ShowCommand
                &&& next.height_mm == h ==> next.command == state.command && report.action
                    == HandsetAction::Idle
            }
            &&& state.held_adjust_ticks < HELD_ADJUST_TICKS - 1 ==> {
                &&& next.height_mm == h
                &&& next.command == state.command
                &&& next.held_adjust_ticks == state.held_adjust_ticks + 1
                &&& report.action == HandsetAction::Idle
            }
        }),
{
}

/// After start-up, lines that show the same button as before and that button
/// is not Up or Down (held preset, held Rec, nothing, unknown lines) change
/// nothing but restart the hold count.
pub proof fn lemma_steady_lines(state: HandsetView, buttons: HandsetButtonState)
    requires
        state.wf(),
        state.reset_refreshes_remaining == 0,
        buttons.button == state.previous_buttons.button,
        buttons.button != HandsetButton::Up,
        buttons.button != HandsetButton::Down,
    ensures
        ({
            let (next, report) = state.tick(buttons);
            &&& next.height_mm == state.height_mm
            &&& next.memories == state.memories
            &&& next.save_armed == state.save_armed
            &&& next.command == state.command
            &&& next.held_adjust_ticks == 0
            &&& report.action == HandsetAction::Idle
        }),
{
}

/// The firmware's button for a reading of the button decoder.
pub open spec fn reading_button(reading: ButtonReading) -> HandsetButton {
    match reading {
        ButtonReading::NoButton => HandsetButton::NoButton,
        ButtonReading::Button(button) => match button {
            Button::Up => HandsetButton::Up,
            Button::Down => HandsetButton::Down,
            Button::M1 => HandsetButton::M1,
            Button::M2 => HandsetButton::M2,
            Button::M3 => HandsetButton::M3,
            Button::M4 => HandsetButton::M4,
            Button::Rec => HandsetButton::Rec,
        },
        ButtonReading::Unknown(_) => HandsetButton::Unknown,
    }
}

/// On four-bit masks the firmware decodes the same buttons as the button
/// decoder, so the button of a state read from lines is the decoder's reading
/// of those lines.
pub proof fn lemma_decode_agrees_with_reading(low_mask: u8, lines: ButtonLines)
    ensures
        low_mask < 16 ==> HandsetButton::spec_decode(low_mask) == reading_button(
            spec_decode_button_mask(low_mask),
        ),
        HandsetButton::spec_decode(lines.spec_raw_low_mask()) == reading_button(
            spec_decode_button(lines),
        ),
{
    crate::buttons::lemma_raw_low_mask_bound(lines);
}

/// The presets are numbered 0 to 3 without repeats; the program shown after
/// a save to preset `i` sets bit `i` of its argument byte; the error shown for
/// an empty preset `i` is `E0(i + 1)` and sets the same bit.
pub proof fn lemma_slot_numbering(slot: MemorySlot, other: MemorySlot)
    ensures
        0 <= slot.spec_index() < MEMORY_SLOT_COUNT,
        slot != other ==> slot.spec_index() != other.spec_index(),
        slot.spec_program_command().spec_arg0() as nat == pow2(slot.spec_index() as nat),
        slot.spec_empty_error().spec_code() == slot.spec_index() + 1,
        slot.spec_empty_error().spec_arg0() == slot.spec_program_command().spec_arg0(),
        slot.spec_program_command() != ProgramCommand::Pending,
        slot.spec_button().spec_memory_slot() == Some(slot),
{
    lemma2_to64();
}

/// Only M1 to M4 select presets, each its own.
pub proof fn lemma_memory_slot_buttons(button: HandsetButton, slot: MemorySlot)
    ensures
        button.spec_memory_slot() == Some(slot) ==> slot.spec_button() == button,
        button.spec_memory_slot() is Some <==> (button == HandsetButton::M1 || button
            == HandsetButton::M2 || button == HandsetButton::M3 || button == HandsetButton::M4),
{
}

/// A new handset shows the reset, stands at the start height, has no preset
/// saved, no save armed, the full start-up count ahead and no hold counted.
pub proof fn lemma_initial_state(buttons: HandsetButtonState)
    ensures
        ({
            let s = HandsetView::initial(buttons);
            &&& s.wf()
            &&& s.height_mm == START_HEIGHT_MM
            &&& s.memories.len() == MEMORY_SLOT_COUNT
            &&& forall|i: int| 0 <= i < MEMORY_SLOT_COUNT ==> #[trigger] s.memories[i] is None
            &&& !s.save_armed
            &&& s.reset_refreshes_remaining == RESET_REFRESH_TICKS
            &&& s.held_adjust_ticks == 0
            &&& s.command == DisplayCommand::Reset
            &&& s.previous_buttons == buttons
        }),
{
}

/// A tick reports whether the lines differ from the previous ones and then
/// remembers them.
pub proof fn lemma_tick_report(state: HandsetView, buttons: HandsetButtonState)
    ensures
        state.tick(buttons).1.buttons_changed <==> buttons != state.previous_buttons,
        state.tick(buttons).0.previous_buttons == buttons,
{
}

/// Whenever a tick changes the height, the display shows the new height
/// afterwards, and the tick reports that it set the display.
pub proof fn lemma_height_change_is_shown(state: HandsetView, buttons: HandsetButtonState)
    requires
        state.wf(),
    ensures
        state.tick(buttons).0.height_mm != state.height_mm ==> state.tick(buttons).0.command
            == DisplayCommand::Height(state.tick(buttons).0.height_mm) && state.tick(
            buttons,
        ).1.action != HandsetAction::Idle,
{
}

/// After start-up, a newly pressed button does what its label says:
/// - Up raises the height by one step, at most to the maximum, and Down lowers
///   it by one step, at least to the minimum; a changed height is shown, and
///   presets and the armed flag stay;
/// - Rec flips the armed flag, showing the pending program when it arms and
///   the height when it cancels, and keeps height and presets;
/// - with a save armed, a preset button stores the height in that preset only,
///   disarms, keeps the height and shows the program with the preset's bit;
/// - without, a preset button that holds a height goes to it and shows it, and
///   an empty one shows the error numbered after the preset; presets stay;
/// - releasing all buttons, or unknown lines, changes none of height,
///   presets, armed flag and display.
pub proof fn lemma_new_press(state: HandsetView, buttons: HandsetButtonState)
    requires
        state.wf(),
        state.reset_refreshes_remaining == 0,
        buttons.button != state.previous_buttons.button,
    ensures
        ({
            let (next, report) = state.tick(buttons);
            let h = state.height_mm;
            &&& next.held_adjust_ticks == 0
            &&& buttons.button == HandsetButton::Up ==> {
                &&& next.height_mm == if h + HEIGHT_STEP_MM <= MAX_HEIGHT_MM {
                    h + HEIGHT_STEP_MM
                } else {
                    MAX_HEIGHT_MM as int
                }
                &&& next.memories == state.memories
                &&& next.save_armed == state.save_armed
                &&& next.height_mm != h ==> next.command == DisplayCommand::Height(next.height_mm)
                    && report.action == HandsetAction::ShowCommand
                &&& next.height_mm == h ==> next.command == state.command && report.action
                    == HandsetAction::Idle
            }
            &&& buttons.button == HandsetButton::Down ==> {
                &&& next.height_mm == if h - HEIGHT_STEP_MM >= MIN_HEIGHT_MM {
                    h - HEIGHT_STEP_MM
                } else {
                    MIN_HEIGHT_MM as int
                }
                &&& next.memories == state.memories
                &&& next.save_armed == state.save_armed
                &&& next.height_mm != h ==> next.command == DisplayCommand::Height(next.height_mm)
                    && report.action == HandsetAction::ShowCommand
                &&& next.height_mm == h ==> next.command == state.command && report.action
                    == HandsetAction::Idle
            }
            &&& buttons.button == HandsetButton::Rec ==> {
                &&& next.save_armed == !state.save_armed
                &&& next.height_mm == h
                &&& next.memories == state.memories
                &&& next.command == if next.save_armed {
                    DisplayCommand::Program(ProgramCommand::Pending)
                } else {
                    DisplayCommand::Height(h)
                }
                &&& report.action == HandsetAction::SaveToggled(next.save_armed)
            }
            &&& forall|slot: MemorySlot|
                #![trigger slot.spec_button()]
                buttons.button == slot.spec_button() ==> {
                    let i = slot.spec_index();
                    &&& state.save_armed ==> {
                        &&& next.memories[i] == Some(h)
                        &&& forall|j: int|
                            0 <= j < MEMORY_SLOT_COUNT && j != i ==> #[trigger] next.memories[j]
                                == state.memories[j]
                        &&& next.memories.len() == MEMORY_SLOT_COUNT
                        &&& !next.save_armed
                        &&& next.height_mm == h
                        &&& (next.command matches DisplayCommand::Program(p) && p.spec_arg0() as nat
                            == pow2(i as nat))
                        &&& report.action == HandsetAction::MemorySaved(slot, h)
                    }
                    &&& !state.save_armed ==> {
                        &&& next.memories == state.memories
                        &&& !next.save_armed
                        &&& state.memories[i] matches Some(saved) ==> next.height_mm == saved
                            && next.command == DisplayCommand::Height(saved) && report.action
                            == HandsetAction::MemoryRecalled(slot, saved)
                        &&& state.memories[i] is None ==> (next.height_mm == h
                            && (next.command matches DisplayCommand::Error(e) && e.spec_code()
                            == i + 1) && report.action == HandsetAction::MemoryEmpty(slot))
                    }
                }
            &&& (buttons.button == HandsetButton::NoButton || buttons.button
                == HandsetButton::Unknown) ==> {
                &&& next.height_mm == h
                &&& next.memories == state.memories
                &&& next.save_armed == state.save_armed
                &&& next.command == state.command
                &&& report.action == HandsetAction::Idle
            }
        }),
{
    lemma2_to64();
}

} // verus!
