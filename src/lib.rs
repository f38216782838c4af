//! Click-driven logic of a small point-and-click escape room.
//!
//! The player turns between four rooms, opens close-ups of items and works
//! six puzzles: the exit door's keypad, a wire board, a phone, a safe, a
//! candle case and a symbol code. Everything here is a function of mouse
//! clicks in whole screen pixels; loading pictures and drawing are left to
//! the program around the library.
//!
//! - `geometry`: points and the rectangles clicks land in.
//! - `room`: the rooms and how the player turns between them.
//! - `item`: clickable items and their hit boxes.
//! - `lock`, `wires`, `phone`, `candles`: the puzzles' states and screens.
//! - `catalogue`: the items of the rooms.
//! - `game`: the whole game and what a click does to it.

pub mod geometry;
pub mod room;
pub mod item;
pub mod lock;
pub mod wires;
pub mod phone;
pub mod candles;
pub mod catalogue;
pub mod game;
