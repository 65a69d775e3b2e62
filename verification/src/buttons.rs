use vstd::prelude::*;

verus! {

/// A button of the handset.
#[derive(Debug, Clone, Copy, PartialEq, Eq, Structural)]
pub enum Button {
    Up,
    Down,
    M1,
    M2,
    M3,
    M4,
    Rec,
}

impl Button {
    /// The set of handset lines pulled low while this button is held, as a
    /// mask: bit 0 is pin 2, bit 1 pin 3, bit 2 pin 4 and bit 3 pin 5.
    pub open spec fn spec_low_mask(self) -> u8 {
        match self {
            Button::Up => 0b1000,
            Button::Down => 0b0100,
            Button::M1 => 0b1100,
            Button::M2 => 0b0010,
            Button::M3 => 0b0110,
            Button::M4 => 0b1010,
            Button::Rec => 0b0001,
        }
    }
}

/// What the handset lines show at one moment.
#[derive(Debug, Clone, Copy, PartialEq, Eq, Structural)]
pub enum ButtonReading {
    /// No line is pulled low.
    NoButton,
    /// The lines show one of the documented buttons.
    Button(Button),
    /// The lines show a combination that is no documented button; the
    /// payload is the four-bit low mask.
    Unknown(u8),
}

/// A change of the held button.
#[derive(Debug, Clone, Copy, PartialEq, Eq, Structural)]
pub enum ButtonEvent {
    Pressed(Button),
    Released(Button),
}

/// Remembers the last reading so that readings can be turned into edges.
#[derive(Debug, Clone, Copy, PartialEq, Eq, Structural)]
pub struct ButtonTracker {
    last_reading: ButtonReading,
}

/// The four handset button lines; each field says whether its pin is low.
#[derive(Debug, Clone, Copy, PartialEq, Eq, Structural)]
pub struct ButtonLines {
    pub pin2_low: bool,
    pub pin3_low: bool,
    pub pin4_low: bool,
    pub pin5_low: bool,
}

/// `value` when `low` holds, else zero.
pub open spec fn line_bit(low: bool, value: u8) -> u8 {
    if low {
        value
    } else {
        0
    }
}

impl ButtonLines {
    /// The lines as a mask: bit 0 is pin 2, bit 1 pin 3, bit 2 pin 4 and bit 3
    /// pin 5, each set when its pin is low.
    pub open spec fn spec_raw_low_mask(self) -> u8 {
        (line_bit(self.pin2_low, 0b0001) + line_bit(self.pin3_low, 0b0010) + line_bit(
            self.pin4_low,
            0b0100,
        ) + line_bit(self.pin5_low, 0b1000)) as u8
    }

    /// The lines that a mask describes: pin 2 is low when bit 0 is set, pin 3
    /// when bit 1 is, pin 4 when bit 2 is and pin 5 when bit 3 is; higher bits
    /// are ignored.
    pub open spec fn spec_from_raw_low_mask(raw_low_mask: u8) -> ButtonLines {
        ButtonLines {
            pin2_low: raw_low_mask % 2 == 1,
            pin3_low: (raw_low_mask / 2) % 2 == 1,
            pin4_low: (raw_low_mask / 4) % 2 == 1,
            pin5_low: (raw_low_mask / 8) % 2 == 1,
        }
    }

    pub fn new(pin2_low: bool, pin3_low: bool, pin4_low: bool, pin5_low: bool) -> (r: Self)
        ensures
            r == (ButtonLines { pin2_low, pin3_low, pin4_low, pin5_low }),
    {
        ButtonLines { pin2_low, pin3_low, pin4_low, pin5_low }
    }

    pub fn raw_low_mask(self) -> (r: u8)
        ensures
            r == self.spec_raw_low_mask(),
            r < 16,
    {
        let mut mask: u8 = 0;

        if self.pin2_low {
            assert(0u8 | 1u8 == 1u8) by (bit_vector);
            mask |= 0b0001;
        }
        assert(mask == line_bit(self.pin2_low, 0b0001));
        if self.pin3_low {
            proof {
                lemma_or_is_add_below_bit(mask, 0b0010);
            }
            mask |= 0b0010;
        }
        assert(mask == line_bit(self.pin2_low, 0b0001) + line_bit(self.pin3_low, 0b0010));
        if self.pin4_low {
            proof {
                lemma_or_is_add_below_bit(mask, 0b0100);
            }
            mask |= 0b0100;
        }
        assert(mask == line_bit(self.pin2_low, 0b0001) + line_bit(self.pin3_low, 0b0010)
            + line_bit(self.pin4_low, 0b0100));
        if self.pin5_low {
            proof {
                lemma_or_is_add_below_bit(mask, 0b1000);
            }
            mask |= 0b1000;
        }
        mask
    }

    pub fn from_raw_low_mask(raw_low_mask: u8) -> (r: Self)
        ensures
            r == Self::spec_from_raw_low_mask(raw_low_mask),
    {
        let m = raw_low_mask;
        assert((m & 0b0001 != 0) == (m % 2 == 1) && (m & 0b0010 != 0) == ((m / 2) % 2 == 1) && (m
            & 0b0100 != 0) == ((m / 4) % 2 == 1) && (m & 0b1000 != 0) == ((m / 8) % 2 == 1))
            by (bit_vector);
        ButtonLines {
            pin2_low: raw_low_mask & 0b0001 != 0,
            pin3_low: raw_low_mask & 0b0010 != 0,
            pin4_low: raw_low_mask & 0b0100 != 0,
            pin5_low: raw_low_mask & 0b1000 != 0,
        }
    }
}

impl Default for ButtonLines {
    /// No line is low.
    fn default() -> (r: Self)
        ensures
            r == (ButtonLines { pin2_low: false, pin3_low: false, pin4_low: false, pin5_low: false }),
    {
        ButtonLines { pin2_low: false, pin3_low: false, pin4_low: false, pin5_low: false }
    }
}

/// Setting a bit above every set bit of `mask` adds its value.
proof fn lemma_or_is_add_below_bit(mask: u8, bit: u8)
    by (bit_vector)
    requires
        bit == 2 || bit == 4 || bit == 8,
        mask < bit,
    ensures
        mask | bit == mask + bit,
        (mask | bit) < 2 * bit,
{
}

/// The reading of a mask: only its low four bits count; no bit set is no
/// button, a documented mask is its button, anything else is unknown.
pub open spec fn spec_decode_button_mask(raw_low_mask: u8) -> ButtonReading {
    let low = raw_low_mask % 16;
    if low == 0 {
        ButtonReading::NoButton
    } else if low == Button::Up.spec_low_mask() {
        ButtonReading::Button(Button::Up)
    } else if low == Button::Down.spec_low_mask() {
        ButtonReading::Button(Button::Down)
    } else if low == Button::M1.spec_low_mask() {
        ButtonReading::Button(Button::M1)
    } else if low == Button::M2.spec_low_mask() {
        ButtonReading::Button(Button::M2)
    } else if low == Button::M3.spec_low_mask() {
        ButtonReading::Button(Button::M3)
    } else if low == Button::M4.spec_low_mask() {
        ButtonReading::Button(Button::M4)
    } else if low == Button::Rec.spec_low_mask() {
        ButtonReading::Button(Button::Rec)
    } else {
        ButtonReading::Unknown(low)
    }
}

/// The reading that a set of lines gives.
pub open spec fn spec_decode_button(lines: ButtonLines) -> ButtonReading {
    spec_decode_button_mask(lines.spec_raw_low_mask())
}

pub fn decode_button_mask(raw_low_mask: u8) -> (r: ButtonReading)
    ensures
        r == spec_decode_button_mask(raw_low_mask),
{
    let m = raw_low_mask;
    assert(m & 0x0f == m % 16) by (bit_vector);
    match raw_low_mask & 0x0f {
        0b0000 => ButtonReading::NoButton,
        0b1000 => ButtonReading::Button(Button::Up),
        0b0100 => ButtonReading::Button(Button::Down),
        0b1100 => ButtonReading::Button(Button::M1),
        0b0010 => ButtonReading::Button(Button::M2),
        0b0110 => ButtonReading::Button(Button::M3),
        0b1010 => ButtonReading::Button(Button::M4),
        0b0001 => ButtonReading::Button(Button::Rec),
        unknown => ButtonReading::Unknown(unknown),
    }
}

pub fn decode_button(lines: ButtonLines) -> (r: ButtonReading)
    ensures
        r == spec_decode_button(lines),
{
    decode_button_mask(lines.raw_low_mask())
}

/// The event between two consecutive readings: none when they are equal; a
/// press when the new reading is a button; a release when the old reading was
/// a button and the new one is not; otherwise none.
pub open spec fn button_edge(previous: ButtonReading, current: ButtonReading) -> Option<
    ButtonEvent,
> {
    if current == previous {
        None
    } else {
        match current {
            ButtonReading::Button(button) => Some(ButtonEvent::Pressed(button)),
            _ => match previous {
                ButtonReading::Button(button) => Some(ButtonEvent::Released(button)),
                _ => None,
            },
        }
    }
}

impl View for ButtonTracker {
    type V = ButtonReading;

    /// The last reading the tracker has seen.
    closed spec fn view(&self) -> ButtonReading {
        self.last_reading
    }
}

impl ButtonTracker {
    pub fn update(&mut self, lines: ButtonLines) -> (r: Option<ButtonEvent>)
        ensures
            final(self)@ == spec_decode_button(lines),
            r == button_edge(old(self)@, spec_decode_button(lines)),
            spec_decode_button(lines) == old(self)@ ==> r is None,
            spec_decode_button(lines) matches ButtonReading::Button(b) ==> (old(self)@
                != spec_decode_button(lines) ==> r == Some(ButtonEvent::Pressed(b))),
            old(self)@ matches ButtonReading::Button(b) ==> (!(spec_decode_button(lines) is Button)
                ==> r == Some(ButtonEvent::Released(b))),
            !(old(self)@ is Button) && !(spec_decode_button(lines) is Button) ==> r is None,
    {
        let reading = decode_button(lines);
        let previous = self.last_reading;

        if reading == previous {
            return None;
        }

        self.last_reading = reading;

        match (previous, reading) {
            (_, ButtonReading::Button(button)) => Some(ButtonEvent::Pressed(button)),
            (ButtonReading::Button(button), ButtonReading::NoButton | ButtonReading::Unknown(_)) => {
                Some(ButtonEvent::Released(button))
            },
            (
                ButtonReading::NoButton | ButtonReading::Unknown(_),
                ButtonReading::NoButton | ButtonReading::Unknown(_),
            ) => None,
        }
    }
}

impl Default for ButtonTracker {
    /// A tracker that has seen no button.
    fn default() -> (r: Self)
        ensures
            r@ == ButtonReading::NoButton,
    {
        ButtonTracker { last_reading: ButtonReading::NoButton }
    }
}

/// A mask of lines uses only its low four bits.
pub proof fn lemma_raw_low_mask_bound(lines: ButtonLines)
    ensures
        lines.spec_raw_low_mask() < 16,
{
}

/// Turning lines into a mask and back gives the same lines.
pub proof fn lemma_lines_mask_round_trip(lines: ButtonLines)
    ensures
        ButtonLines::spec_from_raw_low_mask(lines.spec_raw_low_mask()) == lines,
{
}

/// Turning a mask into lines and back gives its low four bits.
pub proof fn lemma_mask_lines_round_trip(raw_low_mask: u8)
    ensures
        ButtonLines::spec_from_raw_low_mask(raw_low_mask).spec_raw_low_mask() == raw_low_mask
            % 16,
{
}

/// Only the low four bits of a mask decide its reading.
pub proof fn lemma_decode_ignores_high_bits(raw_low_mask: u8)
    ensures
        spec_decode_button_mask(raw_low_mask) == spec_decode_button_mask(raw_low_mask % 16),
{
}

/// A mask reads as a button exactly when its low four bits are that button's
/// documented mask, and as no button exactly when its low four bits are clear;
/// an unknown reading carries the low four bits, which are then neither.
pub proof fn lemma_decode_button_mask_exact(raw_low_mask: u8, button: Button)
    ensures
        spec_decode_button_mask(raw_low_mask) == ButtonReading::Button(button) <==> raw_low_mask
            % 16 == button.spec_low_mask(),
        spec_decode_button_mask(raw_low_mask) == ButtonReading::NoButton <==> raw_low_mask % 16
            == 0,
        spec_decode_button_mask(raw_low_mask) matches ButtonReading::Unknown(u) ==> u
            == raw_low_mask % 16 && u != 0 && u != button.spec_low_mask(),
{
}

/// The lines of a documented button decode to that button.
pub proof fn lemma_button_lines_decode(button: Button)
    ensures
        spec_decode_button(ButtonLines::spec_from_raw_low_mask(button.spec_low_mask()))
            == ButtonReading::Button(button),
{
}

/// A reading that repeats gives no event: holding a button, or holding
/// nothing, is silent.
pub proof fn lemma_repeated_reading_is_silent(reading: ButtonReading)
    ensures
        button_edge(reading, reading) is None,
{
}

/// The edges between two readings, case by case: a new button reading is
/// the press of that button; leaving a button for a reading that is no button
/// is the release of that button; between readings that are no buttons, and
/// between equal readings, nothing happens.
pub proof fn lemma_button_edge_cases(previous: ButtonReading, current: ButtonReading)
    ensures
        current == previous ==> button_edge(previous, current) is None,
        forall|b: Button|
            current == ButtonReading::Button(b) && previous != current ==> button_edge(
                previous,
                current,
            ) == Some(ButtonEvent::Pressed(b)),
        forall|b: Button|
            previous == ButtonReading::Button(b) && !(current is Button) ==> button_edge(
                previous,
                current,
            ) == Some(ButtonEvent::Released(b)),
        !(previous is Button) && !(current is Button) ==> button_edge(previous, current) is None,
{
}

/// The events that a tracker emits, in order, when it starts at `start` and
/// then sees `readings` one after another.
pub open spec fn tracked_events(start: ButtonReading, readings: Seq<ButtonReading>) -> Seq<
    ButtonEvent,
>
    decreases readings.len(),
{
    if readings.len() == 0 {
        Seq::empty()
    } else {
        let before = readings.drop_last();
        let previous = if before.len() == 0 {
            start
        } else {
            before.last()
        };
        tracked_events(start, before) + match button_edge(previous, readings.last()) {
            Some(event) => seq![event],
            None => Seq::empty(),
        }
    }
}

/// The reading a tracker holds after `readings`, when it started at `start`.
pub open spec fn last_reading_after(start: ButtonReading, readings: Seq<ButtonReading>) -> ButtonReading {
    if readings.len() == 0 {
        start
    } else {
        readings.last()
    }
}

/// Every release in `events` comes right after the press of the same button.
pub open spec fn releases_follow_presses(events: Seq<ButtonEvent>) -> bool {
    forall|i: int|
        #![trigger events[i]]
        0 <= i < events.len() ==> (events[i] matches ButtonEvent::Released(b) ==> i > 0 && events[i
            - 1] == ButtonEvent::Pressed(b))
}

/// When `reading` is a button, the last of `events` is its press.
spec fn last_event_presses(events: Seq<ButtonEvent>, reading: ButtonReading) -> bool {
    reading matches ButtonReading::Button(b) ==> events.len() > 0 && events.last()
        == ButtonEvent::Pressed(b)
}

/// While a tracker holds a button reading, the last event it emitted is the
/// press of that button (given that it did not start on a button).
proof fn lemma_tracked_events_invariant(start: ButtonReading, readings: Seq<ButtonReading>)
    requires
        !(start is Button),
    ensures
        last_event_presses(tracked_events(start, readings), last_reading_after(start, readings)),
        releases_follow_presses(tracked_events(start, readings)),
    decreases readings.len(),
{
    if readings.len() > 0 {
        let before = readings.drop_last();
        lemma_tracked_events_invariant(start, before);
        let previous = last_reading_after(start, before);
        let current = readings.last();
        assert(last_reading_after(start, readings) == current);
        let old_events = tracked_events(start, before);
        let events = tracked_events(start, readings);
        match button_edge(previous, current) {
            None => {
                assert(events =~= old_events);
            },
            Some(event) => {
                assert(events =~= old_events.push(event));
                assert forall|i: int| #![trigger events[i]] 0 <= i < events.len() implies (
                events[i] matches ButtonEvent::Released(b) ==> i > 0 && events[i - 1]
                    == ButtonEvent::Pressed(b)) by {
                    if i < old_events.len() {
                        assert(events[i] == old_events[i]);
                        if i > 0 {
                            assert(events[i - 1] == old_events[i - 1]);
                        }
                    }
                }
            },
        }
    }
}

/// Starting from a tracker that holds no button (such as the default one),
/// every release the tracker reports comes right after the press of the same
/// button: a button is never reported released without having been reported
/// pressed.
pub proof fn lemma_release_follows_press(start: ButtonReading, readings: Seq<ButtonReading>)
    requires
        !(start is Button),
    ensures
        releases_follow_presses(tracked_events(start, readings)),
{
    lemma_tracked_events_invariant(start, readings);
}

} // verus!
