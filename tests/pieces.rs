use escape_room::candles::{swap_under, CandleReading, Candles};
use escape_room::geometry::{hit, Bounds, Pos};
use escape_room::item::{Item, ItemState, Size, Sprite, SPRITE_COUNT};
use escape_room::lock::{
    code_panel_control, door_pad_control, safe_control, Combination, LockControl, DIGIT_FACES,
    SYMBOL_FACES,
};
use escape_room::phone::{key_under, Phone, PhoneKey, Reply};
use escape_room::room::{rotate_left, rotate_right, Room};
use escape_room::wires::{terminal_under, Colour, Side, Terminal, WireBoard, WireReading};

#[test]
fn pos_constructors_and_sum() {
    let a = Pos::new(3, 4);
    let b = Pos::tuple((10, -2));
    assert_eq!(a, Pos { x: 3, y: 4 });
    assert_eq!(b, Pos { x: 10, y: -2 });
    assert_eq!(a.add(b), Pos { x: 13, y: 2 });
}

#[test]
fn bounds_keep_corners() {
    let b = Bounds::new(Pos::new(0, 0), Pos::new(5, 0), Pos::new(0, 7), Pos::new(5, 7));
    assert_eq!(b.top_right, Pos::new(5, 0));
    assert_eq!(b.bottom_left, Pos::new(0, 7));
    assert_eq!(b.bottom_right, Pos::new(5, 7));
}

#[test]
fn hit_is_strict() {
    assert!(hit(Pos::new(50, 150), 0, 100, 100, 200));
    assert!(!hit(Pos::new(0, 150), 0, 100, 100, 200));
    assert!(!hit(Pos::new(100, 150), 0, 100, 100, 200));
    assert!(!hit(Pos::new(50, 100), 0, 100, 100, 200));
    assert!(!hit(Pos::new(50, 200), 0, 100, 100, 200));
}

#[test]
fn rotations_follow_the_ring() {
    assert_eq!(rotate_left(Room::North), Room::East);
    assert_eq!(rotate_left(Room::East), Room::South);
    assert_eq!(rotate_left(Room::South), Room::West);
    assert_eq!(rotate_left(Room::West), Room::North);
    assert_eq!(rotate_right(Room::North), Room::West);
    assert_eq!(rotate_right(Room::West), Room::South);
    assert_eq!(rotate_right(Room::South), Room::East);
    assert_eq!(rotate_right(Room::East), Room::North);
    assert_eq!(rotate_left(Room::Nowhere), Room::Nowhere);
    assert_eq!(rotate_right(Room::Nowhere), Room::Nowhere);
}

#[test]
fn turns_cancel_and_four_turns_return() {
    for r in [Room::North, Room::East, Room::South, Room::West, Room::Nowhere] {
        assert_eq!(rotate_right(rotate_left(r)), r);
        assert_eq!(rotate_left(rotate_right(r)), r);
        assert_eq!(rotate_left(rotate_left(rotate_left(rotate_left(r)))), r);
    }
}

#[test]
fn item_new_owns_its_text() {
    let item = Item::new(
        Room::South,
        "light",
        Sprite::Light,
        Size { width: 40, height: 30 },
        Pos::new(100, 0),
        ItemState::Flavor,
        vec!["An ugly but functional light fixture.", "It came with the place."],
        None,
    );
    assert_eq!(item.tag, "light");
    assert_eq!(item.flavor_text, vec!["An ugly but functional light fixture.".to_string(), "It came with the place.".to_string()]);
    assert!(item.link.is_none());
}

#[test]
fn item_bounds_and_contains() {
    let item = Item::new(
        Room::North,
        "exit_door",
        Sprite::ExitDoor,
        Size { width: 100, height: 200 },
        Pos::new(100, 0),
        ItemState::Interact,
        vec![""],
        None,
    );
    let b = item.bounds();
    assert_eq!(b.top_left, Pos::new(100, 0));
    assert_eq!(b.top_right, Pos::new(200, 0));
    assert_eq!(b.bottom_left, Pos::new(100, 200));
    assert_eq!(b.bottom_right, Pos::new(200, 200));
    assert!(item.contains(Pos::new(150, 100)));
    assert!(!item.contains(Pos::new(100, 100)));
    assert!(!item.contains(Pos::new(200, 100)));
    assert!(!item.contains(Pos::new(150, 0)));
    assert!(!item.contains(Pos::new(150, 200)));
}

#[test]
fn sprite_indices_are_distinct_and_in_range() {
    let all = [
        Sprite::ExitDoorPad, Sprite::ExitDoor, Sprite::OpenDoor, Sprite::Table, Sprite::NorthBook,
        Sprite::Book, Sprite::NorthPaintingBig, Sprite::NorthPaintingSmall, Sprite::ClockBig,
        Sprite::ClockSmall, Sprite::PhoneEntry, Sprite::PhoneBooth, Sprite::Shelf, Sprite::EastBook,
        Sprite::WashingtonBig, Sprite::WashingtonSmall, Sprite::ColorMatch, Sprite::ColorBox,
        Sprite::WeightsBig, Sprite::WeightsSmall, Sprite::PaintNumbersBig, Sprite::PaintNumbersSmall,
        Sprite::Window, Sprite::SafeBig, Sprite::SafeSmall, Sprite::OpenSafeBig, Sprite::OpenSafeSmall,
        Sprite::Light, Sprite::VaseBig, Sprite::VaseSmall, Sprite::CandleCaseBig,
        Sprite::CandleCaseSmall, Sprite::CodeEntryBig, Sprite::CodeEntrySmall,
    ];
    assert_eq!(all.len(), SPRITE_COUNT);
    let mut seen = vec![false; SPRITE_COUNT];
    for s in all {
        assert!(!seen[s.index()]);
        seen[s.index()] = true;
    }
}

#[test]
fn wheel_turns_wrap_around() {
    let mut c = Combination::new([8, 9, 0, 12]);
    c.turn(0, DIGIT_FACES);
    c.turn(1, DIGIT_FACES);
    c.turn(2, DIGIT_FACES);
    c.turn(3, SYMBOL_FACES);
    assert_eq!(c.wheels, [9, 0, 1, 0]);
}

#[test]
fn combination_reads_exactly() {
    let c = Combination::new([1, 2, 3, 4]);
    assert!(c.reads([1, 2, 3, 4]));
    assert!(!c.reads([1, 2, 4, 3]));
}

#[test]
fn symbol_code_in_any_order() {
    assert!(Combination::new([10, 7, 4, 2]).opens_symbol_code());
    assert!(Combination::new([2, 4, 7, 10]).opens_symbol_code());
    assert!(!Combination::new([2, 4, 7, 7]).opens_symbol_code());
    assert!(!Combination::new([0, 0, 0, 0]).opens_symbol_code());
}

#[test]
fn lock_layouts() {
    assert_eq!(door_pad_control(Pos::new(225, 200)), Some(LockControl::Wheel(0)));
    assert_eq!(door_pad_control(Pos::new(470, 200)), Some(LockControl::Wheel(3)));
    assert_eq!(door_pad_control(Pos::new(300, 360)), Some(LockControl::Confirm));
    assert_eq!(door_pad_control(Pos::new(260, 200)), None);
    assert_eq!(safe_control(Pos::new(300, 120)), Some(LockControl::Wheel(1)));
    assert_eq!(safe_control(Pos::new(400, 250)), Some(LockControl::Confirm));
    assert_eq!(code_panel_control(Pos::new(365, 230)), Some(LockControl::Wheel(2)));
    assert_eq!(code_panel_control(Pos::new(300, 400)), Some(LockControl::Confirm));
    assert_eq!(code_panel_control(Pos::new(10, 10)), None);
}

fn term(colour: Colour, side: Side) -> Terminal {
    Terminal { colour, side }
}

#[test]
fn terminals_under_clicks() {
    assert_eq!(terminal_under(Pos::new(250, 65)), Some(term(Colour::Red, Side::Left)));
    assert_eq!(terminal_under(Pos::new(500, 327)), Some(term(Colour::Orange, Side::Right)));
    assert_eq!(terminal_under(Pos::new(270, 231)), Some(term(Colour::Blue, Side::Left)));
    assert_eq!(terminal_under(Pos::new(380, 200)), None);
}

#[test]
fn wires_are_drawn_with_two_clicks() {
    let mut b = WireBoard::new();
    b.tap(term(Colour::Red, Side::Right));
    assert_eq!(b.held, Some(term(Colour::Red, Side::Right)));
    b.tap(term(Colour::Green, Side::Left));
    assert_eq!(b.held, None);
    assert_eq!(b.links, [None, Some(Colour::Red), None, None]);
}

#[test]
fn same_side_click_keeps_held_end() {
    let mut b = WireBoard::new();
    b.tap(term(Colour::Red, Side::Left));
    b.tap(term(Colour::Blue, Side::Left));
    assert_eq!(b.held, Some(term(Colour::Red, Side::Left)));
    assert_eq!(b.links, [None, None, None, None]);
    b.release();
    assert_eq!(b.held, None);
}

#[test]
fn wire_readings() {
    let mut b = WireBoard::new();
    assert_eq!(b.reading(), WireReading::Unsolved);
    assert_eq!(b.reading().text(), "Err");
    for c in [Colour::Red, Colour::Green, Colour::Blue, Colour::Orange] {
        b.tap(term(c, Side::Left));
        b.tap(term(c, Side::Right));
    }
    assert_eq!(b.reading(), WireReading::Straight);
    assert_eq!(b.reading().text(), "1234");
    b.tap(term(Colour::Red, Side::Left));
    b.tap(term(Colour::Green, Side::Right));
    b.tap(term(Colour::Green, Side::Left));
    b.tap(term(Colour::Red, Side::Right));
    b.tap(term(Colour::Blue, Side::Left));
    b.tap(term(Colour::Orange, Side::Right));
    b.tap(term(Colour::Blue, Side::Right));
    b.tap(term(Colour::Orange, Side::Left));
    assert_eq!(b.reading(), WireReading::Crossed);
    assert_eq!(b.reading().text(), "1776!");
}

fn dial(phone: &mut Phone, digits: &[u8]) {
    for d in digits {
        phone.press_digit(*d);
    }
}

#[test]
fn phone_numbers_and_replies() {
    let cases: [(&[u8], Reply); 5] = [
        (&[1, 2, 3, 4], Reply::Pumpkin),
        (&[8, 6, 5, 9], Reply::Raspberry),
        (&[1, 7, 7, 6], Reply::Sunflower),
        (&[1, 5, 0, 4, 0, 5, 0, 4, 0, 7, 2, 0], Reply::Cactus),
        (&[1, 2, 3], Reply::Incorrect),
    ];
    for (digits, reply) in cases {
        let mut phone = Phone::new();
        dial(&mut phone, digits);
        phone.call();
        assert_eq!(phone.reply, Some(reply));
        assert!(phone.digits.is_empty());
    }
}

#[test]
fn phone_reply_words() {
    assert_eq!(Reply::Pumpkin.word(), "pumpkin");
    assert_eq!(Reply::Raspberry.word(), "raspberry");
    assert_eq!(Reply::Sunflower.word(), "sunflower");
    assert_eq!(Reply::Cactus.word(), "cactus");
    assert_eq!(Reply::Incorrect.word(), "INCORRECT");
}

#[test]
fn phone_empty_call_digit_after_reply_and_clear() {
    let mut phone = Phone::new();
    phone.call();
    assert_eq!(phone.reply, Some(Reply::Incorrect));
    phone.press_digit(5);
    assert_eq!(phone.reply, None);
    assert_eq!(phone.digits, vec![5]);
    phone.clear();
    assert!(phone.digits.is_empty());
    dial(&mut phone, &[1, 2, 3, 4]);
    phone.call();
    phone.call();
    assert_eq!(phone.reply, Some(Reply::Incorrect));
}

#[test]
fn phone_keys_under_clicks() {
    assert_eq!(key_under(Pos::new(300, 150)), Some(PhoneKey::Digit(0)));
    assert_eq!(key_under(Pos::new(390, 350)), Some(PhoneKey::Digit(9)));
    assert_eq!(key_under(Pos::new(500, 200)), Some(PhoneKey::Call));
    assert_eq!(key_under(Pos::new(500, 300)), Some(PhoneKey::Clear));
    assert_eq!(key_under(Pos::new(10, 10)), None);
}

#[test]
fn candles_swap_and_read() {
    let mut c = Candles::new();
    assert_eq!(c.order, [3, 2, 1, 0]);
    assert_eq!(c.reading(), CandleReading::Incorrect);
    assert_eq!(c.reading().text(), "Incorrect");
    // 3 2 1 0 -> 2 3 1 0 -> 2 1 3 0 -> 2 1 0 3 -> 2 0 1 3 -> 2 0 3 1
    for i in [0, 1, 2, 1, 2] {
        c.swap(i);
    }
    assert_eq!(c.order, [2, 0, 3, 1]);
    assert_eq!(c.reading(), CandleReading::Beaver);
    assert_eq!(c.reading().text(), "BEAVER");
    let mut d = Candles { order: [1, 0, 2, 3] };
    d.swap(0);
    assert_eq!(d.reading(), CandleReading::Cat);
    assert_eq!(d.reading().text(), "CAT");
    d.swap(0);
    d.swap(0);
    assert_eq!(d.order, [0, 1, 2, 3]);
}

#[test]
fn candle_buttons() {
    assert_eq!(swap_under(Pos::new(180, 210)), Some(0));
    assert_eq!(swap_under(Pos::new(320, 210)), Some(1));
    assert_eq!(swap_under(Pos::new(440, 210)), Some(2));
    assert_eq!(swap_under(Pos::new(250, 210)), None);
}
