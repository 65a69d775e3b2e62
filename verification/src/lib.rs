//! Protocol and input logic for a Jiecang-style desk handset: the packets that
//! drive the handset display, the decoding of the handset button lines, a
//! typestate controller over both, and the height/memory state machine that a
//! handset firmware runs.

pub mod buttons;
pub mod controller;
pub mod display;
pub mod handset;

pub use buttons::{
    Button, ButtonEvent, ButtonLines, ButtonReading, ButtonTracker, decode_button,
    decode_button_mask,
};

pub use controller::{
    ButtonsController, Controller, ControllerBuilder, DisplayController, FullController,
    WithButtons, WithDisplay, WithoutButtons, WithoutDisplay,
};
pub use display::{DisplayCommand, HandsetError, ProgramCommand};
pub use handset::{
    decrease_height, increase_height, Handset, HandsetAction, HandsetButton, HandsetButtonState,
    HandsetView, MemorySlot, TickReport,
    HEIGHT_STEP_MM, HELD_ADJUST_TICKS, MAX_HEIGHT_MM, MEMORY_SLOT_COUNT, MIN_HEIGHT_MM,
    RESET_REFRESH_TICKS, START_HEIGHT_MM,
};
