use core::marker::PhantomData;

use crate::buttons::{
    button_edge, decode_button, spec_decode_button, ButtonEvent, ButtonLines, ButtonReading,
    ButtonTracker,
};
use crate::display::{DisplayCommand, HandsetError, ProgramCommand};
use vstd::prelude::*;

verus! {

/// Marks a controller that drives the handset display.
#[derive(Debug, Default, Clone, Copy)]
pub struct WithDisplay;

/// Marks a controller that does not drive the handset display.
#[derive(Debug, Default, Clone, Copy)]
pub struct WithoutDisplay;

/// Marks a controller that reads the handset buttons.
#[derive(Debug, Default, Clone, Copy)]
pub struct WithButtons;

/// Marks a controller that does not read the handset buttons.
#[derive(Debug, Default, Clone, Copy)]
pub struct WithoutButtons;

/// A handset controller; its type parameters say which of display and
/// buttons it handles, and only those methods exist on it.
#[derive(Debug)]
pub struct Controller<Display = WithDisplay, Buttons = WithButtons> {
    button_tracker: ButtonTracker,
    _display: PhantomData<Display>,
    _buttons: PhantomData<Buttons>,
}

/// Builds a [`Controller`] capability by capability.
#[derive(Debug)]
pub struct ControllerBuilder<Display = WithoutDisplay, Buttons = WithoutButtons> {
    button_tracker: ButtonTracker,
    _display: PhantomData<Display>,
    _buttons: PhantomData<Buttons>,
}

impl<D, B> Clone for Controller<D, B> {
    fn clone(&self) -> (r: Self)
        ensures
            r == *self,
    {
        *self
    }
}

impl<D, B> Copy for Controller<D, B> {

}

impl<D, B> Clone for ControllerBuilder<D, B> {
    fn clone(&self) -> (r: Self)
        ensures
            r == *self,
    {
        *self
    }
}

impl<D, B> Copy for ControllerBuilder<D, B> {

}

pub type FullController = Controller<WithDisplay, WithButtons>;

pub type DisplayController = Controller<WithDisplay, WithoutButtons>;

pub type ButtonsController = Controller<WithoutDisplay, WithButtons>;

impl<D, B> View for Controller<D, B> {
    type V = ButtonReading;

    /// The last button reading the controller has seen.
    closed spec fn view(&self) -> ButtonReading {
        self.button_tracker@
    }
}

impl<D, B> View for ControllerBuilder<D, B> {
    type V = ButtonReading;

    /// The last button reading the controller being built starts from.
    closed spec fn view(&self) -> ButtonReading {
        self.button_tracker@
    }
}

impl Controller<WithDisplay, WithButtons> {
    pub fn builder() -> (r: ControllerBuilder<WithoutDisplay, WithoutButtons>)
        ensures
            r@ == ButtonReading::NoButton,
    {
        ControllerBuilder::default()
    }

    pub fn display_only() -> (r: DisplayController)
        ensures
            r@ == ButtonReading::NoButton,
    {
        Controller::builder().with_display().build()
    }

    pub fn buttons_only() -> (r: ButtonsController)
        ensures
            r@ == ButtonReading::NoButton,
    {
        Controller::builder().with_buttons().build()
    }
}

impl Default for Controller<WithDisplay, WithButtons> {
    /// A controller with display and buttons that has seen no button.
    fn default() -> (r: Self)
        ensures
            r@ == ButtonReading::NoButton,
    {
        Controller::builder().with_display().with_buttons().build()
    }
}

impl<B> Controller<WithDisplay, B> {
    pub fn command(&self, command: DisplayCommand) -> (r: [u8; 4])
        ensures
            r@ == command.spec_packet(),
    {
        command.packet()
    }

    pub fn reset(&self) -> (r: [u8; 4])
        ensures
            r@ == DisplayCommand::Reset.spec_packet(),
    {
        DisplayCommand::Reset.packet()
    }

    pub fn height(&self, height_mm: u16) -> (r: [u8; 4])
        ensures
            r@ == DisplayCommand::Height(height_mm).spec_packet(),
    {
        DisplayCommand::Height(height_mm).packet()
    }

    pub fn error(&self, error: HandsetError) -> (r: [u8; 4])
        ensures
            r@ == DisplayCommand::Error(error).spec_packet(),
    {
        DisplayCommand::Error(error).packet()
    }

    pub fn program(&self, program: ProgramCommand) -> (r: [u8; 4])
        ensures
            r@ == DisplayCommand::Program(program).spec_packet(),
    {
        DisplayCommand::Program(program).packet()
    }
}

impl<D> Controller<D, WithButtons> {
    pub fn update_buttons(&mut self, lines: ButtonLines) -> (r: Option<ButtonEvent>)
        ensures
            final(self)@ == spec_decode_button(lines),
            r == button_edge(old(self)@, spec_decode_button(lines)),
    {
        self.button_tracker.update(lines)
    }

    pub fn button_reading(&self, lines: ButtonLines) -> (r: ButtonReading)
        ensures
            r == spec_decode_button(lines),
    {
        decode_button(lines)
    }

    pub fn reset_button_tracker(&mut self)
        ensures
            final(self)@ == ButtonReading::NoButton,
    {
        self.button_tracker = ButtonTracker::default();
    }
}

impl<D, B> Controller<D, B> {
    fn new(button_tracker: ButtonTracker) -> (r: Self)
        ensures
            r@ == button_tracker@,
    {
        Controller { button_tracker, _display: PhantomData, _buttons: PhantomData }
    }
}

impl<D, B> ControllerBuilder<D, B> {
    pub fn with_display(self) -> (r: ControllerBuilder<WithDisplay, B>)
        ensures
            r@ == self@,
    {
        ControllerBuilder {
            button_tracker: self.button_tracker,
            _display: PhantomData,
            _buttons: PhantomData,
        }
    }

    pub fn with_buttons(self) -> (r: ControllerBuilder<D, WithButtons>)
        ensures
            r@ == self@,
    {
        ControllerBuilder {
            button_tracker: self.button_tracker,
            _display: PhantomData,
            _buttons: PhantomData,
        }
    }

    pub fn build(self) -> (r: Controller<D, B>)
        ensures
            r@ == self@,
    {
        Controller::new(self.button_tracker)
    }
}

impl Default for ControllerBuilder<WithoutDisplay, WithoutButtons> {
    /// A builder with neither capability whose controller will have seen no
    /// button.
    fn default() -> (r: Self)
        ensures
            r@ == ButtonReading::NoButton,
    {
        ControllerBuilder {
            button_tracker: ButtonTracker::default(),
            _display: PhantomData,
            _buttons: PhantomData,
        }
    }
}

} // verus!
