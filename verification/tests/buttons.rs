use jiecang_handset_controller::{
    decode_button, decode_button_mask, Button, ButtonEvent, ButtonLines, ButtonReading,
    ButtonTracker,
};

#[test]
fn documented_button_lines_decode() {
    let cases = [
        (ButtonLines::default(), ButtonReading::NoButton),
        (
            ButtonLines::new(false, false, false, true),
            ButtonReading::Button(Button::Up),
        ),
        (
            ButtonLines::new(false, false, true, false),
            ButtonReading::Button(Button::Down),
        ),
        (
            ButtonLines::new(false, false, true, true),
            ButtonReading::Button(Button::M1),
        ),
        (
            ButtonLines::new(false, true, false, false),
            ButtonReading::Button(Button::M2),
        ),
        (
            ButtonLines::new(false, true, true, false),
            ButtonReading::Button(Button::M3),
        ),
        (
            ButtonLines::new(false, true, false, true),
            ButtonReading::Button(Button::M4),
        ),
        (
            ButtonLines::new(true, false, false, false),
            ButtonReading::Button(Button::Rec),
        ),
    ];

    for (lines, reading) in cases {
        assert_eq!(decode_button(lines), reading);
    }
}

#[test]
fn unknown_button_masks_are_reported() {
    assert_eq!(decode_button_mask(0b0011), ButtonReading::Unknown(0b0011));
    assert_eq!(decode_button_mask(0b1111), ButtonReading::Unknown(0b1111));
}

#[test]
fn button_lines_round_trip_to_raw_mask() {
    let lines = ButtonLines::new(true, false, true, false);

    assert_eq!(lines.raw_low_mask(), 0b0101);
    assert_eq!(ButtonLines::from_raw_low_mask(0b0101), lines);
    assert_eq!(
        ButtonLines::from_raw_low_mask(0b1111).raw_low_mask(),
        0b1111
    );
}

#[test]
fn button_tracker_emits_pressed_and_released_edges() {
    let mut tracker = ButtonTracker::default();

    assert_eq!(tracker.update(ButtonLines::from_raw_low_mask(0b0000)), None);
    assert_eq!(
        tracker.update(ButtonLines::from_raw_low_mask(0b1000)),
        Some(ButtonEvent::Pressed(Button::Up))
    );
    assert_eq!(tracker.update(ButtonLines::from_raw_low_mask(0b1000)), None);
    assert_eq!(
        tracker.update(ButtonLines::from_raw_low_mask(0b0000)),
        Some(ButtonEvent::Released(Button::Up))
    );
    assert_eq!(
        tracker.update(ButtonLines::from_raw_low_mask(0b1000)),
        Some(ButtonEvent::Pressed(Button::Up))
    );
    assert_eq!(
        tracker.update(ButtonLines::from_raw_low_mask(0b0100)),
        Some(ButtonEvent::Pressed(Button::Down))
    );
    assert_eq!(
        tracker.update(ButtonLines::from_raw_low_mask(0b0011)),
        Some(ButtonEvent::Released(Button::Down))
    );
}

#[test]
fn button_tracker_ignores_none_and_unknown_edges_without_previous_button() {
    let mut tracker = ButtonTracker::default();

    assert_eq!(tracker.update(ButtonLines::from_raw_low_mask(0b0011)), None);
    assert_eq!(tracker.update(ButtonLines::from_raw_low_mask(0b1111)), None);
    assert_eq!(tracker.update(ButtonLines::default()), None);
}

#[test]
fn every_mask_round_trips_through_lines() {
    for mask in 0u8..=255 {
        let lines = ButtonLines::from_raw_low_mask(mask);
        assert_eq!(lines.raw_low_mask(), mask & 0x0f);
        assert_eq!(ButtonLines::from_raw_low_mask(lines.raw_low_mask()), lines);
    }
}

#[test]
fn raw_low_mask_sets_one_bit_per_low_pin() {
    assert_eq!(ButtonLines::new(true, false, false, false).raw_low_mask(), 0b0001);
    assert_eq!(ButtonLines::new(false, true, false, false).raw_low_mask(), 0b0010);
    assert_eq!(ButtonLines::new(false, false, true, false).raw_low_mask(), 0b0100);
    assert_eq!(ButtonLines::new(false, false, false, true).raw_low_mask(), 0b1000);
    assert_eq!(ButtonLines::new(true, true, true, true).raw_low_mask(), 0b1111);
    assert_eq!(ButtonLines::default().raw_low_mask(), 0);
}

#[test]
fn decoding_ignores_high_bits() {
    assert_eq!(decode_button_mask(0b1111_1000), ButtonReading::Button(Button::Up));
    assert_eq!(decode_button_mask(0b0001_0000), ButtonReading::NoButton);
    assert_eq!(decode_button_mask(0b1010_0111), ButtonReading::Unknown(0b0111));
    for mask in 0u8..=255 {
        assert_eq!(decode_button_mask(mask), decode_button_mask(mask & 0x0f));
    }
}

#[test]
fn release_after_press_through_unknown_lines() {
    let mut tracker = ButtonTracker::default();
    assert_eq!(
        tracker.update(ButtonLines::from_raw_low_mask(0b0001)),
        Some(ButtonEvent::Pressed(Button::Rec))
    );
    assert_eq!(
        tracker.update(ButtonLines::from_raw_low_mask(0b1001)),
        Some(ButtonEvent::Released(Button::Rec))
    );
    assert_eq!(tracker.update(ButtonLines::from_raw_low_mask(0b1011)), None);
    assert_eq!(
        tracker.update(ButtonLines::from_raw_low_mask(0b0110)),
        Some(ButtonEvent::Pressed(Button::M3))
    );
}

#[test]
fn releases_always_follow_presses_of_the_same_button() {
    let masks: [u8; 14] = [
        0b0011, 0b1000, 0b0100, 0b0000, 0b1100, 0b1100, 0b1111, 0b0010, 0b0110, 0b1010, 0b0111,
        0b0001, 0b0000, 0b0000,
    ];
    let mut tracker = ButtonTracker::default();
    let mut events = Vec::new();
    for mask in masks {
        if let Some(event) = tracker.update(ButtonLines::from_raw_low_mask(mask)) {
            events.push(event);
        }
    }
    assert_eq!(events.len(), 11);
    for i in 0..events.len() {
        if let ButtonEvent::Released(button) = events[i] {
            assert!(i > 0);
            assert_eq!(events[i - 1], ButtonEvent::Pressed(button));
        }
    }
}
