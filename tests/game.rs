use escape_room::catalogue::{open_door, open_safe, starting_items, STARTING_ITEMS};
use escape_room::game::{puzzle_for, Feedback, Game, Puzzle, UserState};
use escape_room::geometry::Pos;
use escape_room::item::{ItemState, Size, Sprite, SPRITE_COUNT};
use escape_room::phone::Reply;
use escape_room::room::Room;
use escape_room::wires::Colour;

fn sizes() -> Vec<Size> {
    vec![Size { width: 60, height: 60 }; SPRITE_COUNT]
}

fn game() -> Game {
    Game::new(sizes())
}

fn click(g: &mut Game, x: i32, y: i32) -> Feedback {
    g.click(Pos::new(x, y))
}

fn clicks(g: &mut Game, x: i32, y: i32, n: usize) {
    for _ in 0..n {
        assert_eq!(click(g, x, y), Feedback::Silent);
    }
}

fn text(g: &Game) -> Vec<&str> {
    g.main_text.iter().map(|s| s.as_str()).collect()
}

#[test]
fn new_game_starts_north_and_browsing() {
    let g = game();
    assert_eq!(g.items.len(), STARTING_ITEMS);
    assert_eq!(g.current_room, Room::North);
    assert_eq!(g.current_state, UserState::Nothing);
    assert_eq!(g.current_item, None);
    assert!(g.main_text.is_empty());
    assert_eq!(g.door_pad.wheels, [1, 1, 1, 1]);
    assert_eq!(g.safe.wheels, [1, 1, 1, 1]);
    assert_eq!(g.code.wheels, [0, 0, 0, 0]);
    assert_eq!(g.candles.order, [3, 2, 1, 0]);
    assert_eq!(g.wires.links, [None, None, None, None]);
    assert!(g.phone.digits.is_empty());
}

#[test]
fn starting_items_link_their_screens() {
    let items = starting_items(&sizes());
    assert_eq!(items.len(), 36);
    assert_eq!(items[0].tag, "door_pad");
    assert_eq!(items[0].room, Room::Nowhere);
    assert_eq!(items[1].tag, "exit_door");
    assert_eq!(items[1].link.as_ref().unwrap().tag, "door_pad");
    let east_table = items.iter().filter(|i| i.room == Room::East && i.sprite == Sprite::Table).count();
    assert_eq!(east_table, 1);
    let interact: Vec<&str> = items
        .iter()
        .filter(|i| i.state == ItemState::Interact)
        .map(|i| i.link.as_ref().unwrap().tag.as_str())
        .collect();
    assert_eq!(
        interact,
        vec!["door_pad", "phone_entry", "colormatch", "safe_big", "candlecase_big", "codeentry_big"]
    );
    for item in &items {
        if item.state == ItemState::Look || item.state == ItemState::Interact {
            assert!(item.link.is_some());
        }
    }
}

#[test]
fn opened_items() {
    let door = open_door(&sizes());
    assert_eq!(door.tag, "open_door");
    assert_eq!(door.state, ItemState::Flavor);
    assert_eq!(door.flavor_text, vec!["You know, I don't really", "feel like leaving, actually."]);
    let safe = open_safe(&sizes());
    assert_eq!(safe.room, Room::West);
    assert_eq!(safe.state, ItemState::Look);
    assert_eq!(safe.link.as_ref().unwrap().sprite, Sprite::OpenSafeBig);
}

#[test]
fn puzzle_tags() {
    assert_eq!(puzzle_for(&"door_pad".to_string()), Some(Puzzle::DoorPad));
    assert_eq!(puzzle_for(&"colormatch".to_string()), Some(Puzzle::Wires));
    assert_eq!(puzzle_for(&"phone_entry".to_string()), Some(Puzzle::Phone));
    assert_eq!(puzzle_for(&"safe_big".to_string()), Some(Puzzle::Safe));
    assert_eq!(puzzle_for(&"candlecase_big".to_string()), Some(Puzzle::Candles));
    assert_eq!(puzzle_for(&"codeentry_big".to_string()), Some(Puzzle::SymbolCode));
    assert_eq!(puzzle_for(&"big_clock".to_string()), None);
}

#[test]
fn arrows_turn_the_player() {
    let mut g = game();
    click(&mut g, 50, 150);
    assert_eq!(g.current_room, Room::East);
    assert_eq!(text(&g), vec![""]);
    click(&mut g, 550, 150);
    assert_eq!(g.current_room, Room::North);
    click(&mut g, 550, 150);
    assert_eq!(g.current_room, Room::West);
    click(&mut g, 100, 150);
    assert_eq!(g.current_room, Room::West);
    assert_eq!(g.current_state, UserState::Nothing);
}

#[test]
fn flavor_item_shows_text() {
    let mut g = game();
    click(&mut g, 550, 150);
    assert_eq!(g.current_room, Room::West);
    click(&mut g, 180, 80);
    assert_eq!(text(&g), vec!["What a nice view!"]);
    assert_eq!(g.current_state, UserState::Nothing);
    click(&mut g, 50, 150);
    assert_eq!(text(&g), vec![""]);
}

#[test]
fn look_and_go_back() {
    let mut g = game();
    click(&mut g, 80, 365);
    assert_eq!(g.current_state, UserState::Looking);
    assert_eq!(g.current_item, Some(4));
    assert_eq!(g.items[4].tag, "north_closed_book");
    click(&mut g, 300, 300);
    assert_eq!(g.current_state, UserState::Looking);
    click(&mut g, 50, 70);
    assert_eq!(g.current_state, UserState::Nothing);
    assert_eq!(g.current_item, None);
}

#[test]
fn clicks_on_nothing_change_nothing() {
    let mut g = game();
    click(&mut g, 300, 250);
    assert_eq!(g.current_state, UserState::Nothing);
    assert_eq!(g.current_room, Room::North);
    assert!(g.main_text.is_empty());
}

#[test]
fn wrong_door_code_is_refused() {
    let mut g = game();
    click(&mut g, 130, 30);
    assert_eq!(g.current_state, UserState::Interacting);
    assert_eq!(g.shown_puzzle(), Some(Puzzle::DoorPad));
    assert_eq!(click(&mut g, 300, 360), Feedback::Wrong);
    assert_eq!(g.current_state, UserState::Interacting);
    assert_eq!(g.items.len(), STARTING_ITEMS);
}

#[test]
fn door_opens_on_right_code() {
    let mut g = game();
    click(&mut g, 130, 30);
    clicks(&mut g, 300, 200, 1);
    clicks(&mut g, 395, 200, 2);
    clicks(&mut g, 470, 200, 3);
    assert_eq!(g.door_pad.wheels, [1, 2, 3, 4]);
    assert_eq!(click(&mut g, 300, 360), Feedback::Silent);
    assert_eq!(g.current_state, UserState::Nothing);
    assert_eq!(g.current_item, None);
    assert_eq!(text(&g), vec!["The door opened!"]);
    assert_eq!(g.items.len(), STARTING_ITEMS + 1);
    assert_eq!(g.items[STARTING_ITEMS].tag, "open_door");
    // The open door now answers clicks on the doorway.
    click(&mut g, 130, 30);
    assert_eq!(g.current_state, UserState::Nothing);
    assert_eq!(text(&g), vec!["You know, I don't really", "feel like leaving, actually."]);
}

#[test]
fn door_wheel_wraps_after_nine() {
    let mut g = game();
    click(&mut g, 130, 30);
    clicks(&mut g, 225, 200, 9);
    assert_eq!(g.door_pad.wheels, [0, 1, 1, 1]);
    click(&mut g, 50, 70);
    assert_eq!(g.current_state, UserState::Nothing);
    assert_eq!(g.door_pad.wheels, [0, 1, 1, 1]);
}

#[test]
fn safe_opens_and_then_shows_its_inside() {
    let mut g = game();
    click(&mut g, 550, 150);
    click(&mut g, 420, 125);
    assert_eq!(g.shown_puzzle(), Some(Puzzle::Safe));
    clicks(&mut g, 225, 120, 4);
    clicks(&mut g, 300, 120, 2);
    clicks(&mut g, 365, 120, 8);
    clicks(&mut g, 435, 120, 3);
    assert_eq!(g.safe.wheels, [5, 3, 9, 4]);
    assert_eq!(click(&mut g, 400, 250), Feedback::Silent);
    assert_eq!(text(&g), vec!["The safe opened!"]);
    assert_eq!(g.items.len(), STARTING_ITEMS + 2);
    assert_eq!(g.items[STARTING_ITEMS].sprite, Sprite::OpenSafeBig);
    assert_eq!(g.items[STARTING_ITEMS + 1].sprite, Sprite::OpenSafeSmall);
    click(&mut g, 420, 125);
    assert_eq!(g.current_state, UserState::Looking);
    assert_eq!(g.current_item, Some(STARTING_ITEMS + 1));
}

#[test]
fn wrong_safe_code_is_refused() {
    let mut g = game();
    click(&mut g, 550, 150);
    click(&mut g, 420, 125);
    assert_eq!(click(&mut g, 400, 250), Feedback::Wrong);
    assert_eq!(g.items.len(), STARTING_ITEMS);
}

#[test]
fn wire_board_through_the_game() {
    let mut g = game();
    click(&mut g, 50, 150);
    assert_eq!(g.current_room, Room::East);
    click(&mut g, 490, 380);
    assert_eq!(g.shown_puzzle(), Some(Puzzle::Wires));
    click(&mut g, 250, 65);
    click(&mut g, 500, 148);
    assert_eq!(g.wires.links, [Some(Colour::Green), None, None, None]);
    click(&mut g, 250, 151);
    assert!(g.wires.held.is_some());
    click(&mut g, 50, 70);
    assert_eq!(g.current_state, UserState::Nothing);
    assert!(g.wires.held.is_none());
    assert_eq!(g.wires.links, [Some(Colour::Green), None, None, None]);
}

#[test]
fn phone_through_the_game() {
    let mut g = game();
    click(&mut g, 50, 150);
    click(&mut g, 130, 80);
    assert_eq!(g.shown_puzzle(), Some(Puzzle::Phone));
    click(&mut g, 240, 220);
    click(&mut g, 250, 350);
    click(&mut g, 250, 350);
    click(&mut g, 380, 290);
    assert_eq!(g.phone.digits, vec![1, 7, 7, 6]);
    click(&mut g, 500, 200);
    assert_eq!(g.phone.reply, Some(Reply::Sunflower));
    click(&mut g, 500, 300);
    assert_eq!(g.phone.reply, None);
    assert!(g.phone.digits.is_empty());
}

#[test]
fn candles_through_the_game() {
    let mut g = game();
    clicks(&mut g, 50, 150, 2);
    assert_eq!(g.current_room, Room::South);
    click(&mut g, 370, 190);
    assert_eq!(g.shown_puzzle(), Some(Puzzle::Candles));
    click(&mut g, 180, 210);
    assert_eq!(g.candles.order, [2, 3, 1, 0]);
}

#[test]
fn symbol_code_ends_the_game() {
    let mut g = game();
    clicks(&mut g, 50, 150, 2);
    click(&mut g, 430, 355);
    assert_eq!(g.shown_puzzle(), Some(Puzzle::SymbolCode));
    assert_eq!(click(&mut g, 300, 400), Feedback::Wrong);
    clicks(&mut g, 165, 230, 2);
    clicks(&mut g, 265, 230, 4);
    clicks(&mut g, 365, 230, 7);
    clicks(&mut g, 465, 230, 10);
    assert_eq!(g.code.wheels, [2, 4, 7, 10]);
    assert_eq!(click(&mut g, 300, 400), Feedback::Silent);
    assert_eq!(g.current_state, UserState::Complete);
    // Nothing moves after the end.
    assert_eq!(click(&mut g, 50, 70), Feedback::Silent);
    assert_eq!(click(&mut g, 50, 150), Feedback::Silent);
    assert_eq!(g.current_state, UserState::Complete);
    assert_eq!(g.current_room, Room::South);
}

#[test]
fn symbol_wheel_wraps_after_twelve() {
    let mut g = game();
    clicks(&mut g, 50, 150, 2);
    click(&mut g, 430, 355);
    clicks(&mut g, 165, 230, 13);
    assert_eq!(g.code.wheels, [0, 0, 0, 0]);
}
