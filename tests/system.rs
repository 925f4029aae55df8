use playdate_rs::graphics::{BitmapData, LCDColor, LCDSolidColor};
use playdate_rs::handle::NativeHandle;
use playdate_rs::math::{Size, Vec2};
use playdate_rs::print::Logger;
use playdate_rs::system::{Button, ButtonState, Buttons, FrameClock, Playdate, SystemEvent};

#[test]
fn solid_colors_round_trip() {
    assert_eq!(LCDColor(0).as_solid_color(), Some(LCDSolidColor::kColorBlack));
    assert_eq!(LCDColor(1).as_solid_color(), Some(LCDSolidColor::kColorWhite));
    assert_eq!(LCDColor(2).as_solid_color(), Some(LCDSolidColor::kColorClear));
    assert_eq!(LCDColor(3).as_solid_color(), Some(LCDSolidColor::kColorXOR));
    assert_eq!(LCDColor(4).as_solid_color(), None);
    assert_eq!(LCDColor::from(LCDSolidColor::kColorXOR), LCDColor(3));
    assert_eq!(LCDColor::from(LCDSolidColor::kColorWhite).as_solid_color(), Some(LCDSolidColor::kColorWhite));
}

#[test]
fn bitmap_data_pixels() {
    let empty = BitmapData::new();
    assert_eq!(empty.size, Size::new(0, 0));
    assert!(empty.data.is_empty());
    let data = BitmapData {
        size: Size::new(16, 2),
        rowbytes: 2,
        mask: None,
        data: vec![0b1000_0000, 0b0000_0001, 0b0000_0000, 0b0100_0000],
    };
    assert!(data.get_pixel(Vec2::new(0, 0)));
    assert!(!data.get_pixel(Vec2::new(1, 0)));
    assert!(data.get_pixel(Vec2::new(15, 0)));
    assert!(data.get_pixel(Vec2::new(9, 1)));
    assert!(!data.get_pixel(Vec2::new(8, 1)));
}

#[test]
fn buttons_bits() {
    let b = Buttons::none().with(Button::A).with(Button::Left);
    assert_eq!(b.bits, 0b10_0001);
    assert!(b.contains(Button::A));
    assert!(b.contains(Button::Left));
    assert!(!b.contains(Button::B));
    assert_eq!(b.intersection(Buttons::from_bits(0b10_0000)).bits, 0b10_0000);
    assert_eq!(b.union(Buttons::from_bits(0b100)).bits, 0b10_0101);
    assert!(Buttons::none().is_none());
}

#[test]
fn button_state_from_words() {
    let s = ButtonState::from_raw(0x120, 0x1, 0x0);
    assert_eq!(s.current.bits, 0x20);
    assert!(s.current.contains(Button::A));
    assert!(s.pushed.contains(Button::Left));
    assert!(s.released.is_none());
}

#[test]
fn event_codes() {
    assert_eq!(SystemEvent::from_code(0), Some(SystemEvent::Init));
    assert_eq!(SystemEvent::from_code(6), Some(SystemEvent::Terminate));
    assert_eq!(SystemEvent::from_code(9), Some(SystemEvent::LowPower));
    assert_eq!(SystemEvent::from_code(10), None);
}

#[test]
fn facade_built_once_on_init() {
    let mut pd = Playdate::new();
    assert!(pd.get().is_none());
    assert!(!pd.handle_event(NativeHandle::from_raw(5), SystemEvent::Resume));
    assert!(pd.get().is_none());
    assert!(pd.handle_event(NativeHandle::from_raw(7), SystemEvent::Init));
    assert_eq!(pd.get().unwrap().get_raw_api().raw(), 7);
    assert!(!pd.handle_event(NativeHandle::from_raw(8), SystemEvent::Init));
    assert_eq!(pd.get().unwrap().get_raw_api().raw(), 7);
}

#[test]
fn frame_clock_deltas() {
    let mut c = FrameClock::new();
    assert_eq!(c.tick(1000), 0);
    assert_eq!(c.tick(1033), 33);
    assert_eq!(c.tick(1020), 0);
    assert_eq!(c.tick(1050), 30);
}

#[test]
fn logger_flushes_whole_line() {
    let mut l = Logger::new();
    l.write_str("score: ");
    l.write_str("42");
    assert_eq!(l.flush(), "score: 42");
    assert_eq!(l.flush(), "");
}
