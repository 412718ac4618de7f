use vstd::prelude::*;

use crate::graphics::character::{CharacterType, MoveDirection};

verus! {

/// Handle of one texture of the game. Every actor of a kind shares the handles
/// of that kind; the caller loads each texture once, from `texture_path`.
#[derive(Clone, Copy, Debug, PartialEq, Eq, Hash, Structural)]
pub enum TextureId {
    Background,
    Character(CharacterType, MoveDirection),
}

/// One textured rectangle to draw, in pixels.
#[derive(Clone, Copy, Debug, PartialEq, Eq, Structural)]
pub struct Sprite {
    pub texture: TextureId,
    pub x: i64,
    pub y: i64,
    pub width: u32,
    pub height: u32,
}

/// Colour of a line of menu text.
#[derive(Clone, Copy, Debug, PartialEq, Eq, Hash, Structural)]
pub enum TextColor {
    /// The selected entry.
    Highlight,
    /// Every other entry.
    Base,
}

/// One line of text to draw, centred horizontally, its top at `y`.
#[derive(Clone, Debug, PartialEq, Eq)]
pub struct TextLine {
    pub label: String,
    pub size: u32,
    pub y: u32,
    pub color: TextColor,
}

/// What a screen asks the caller to draw, back to front.
#[derive(Clone, Debug, PartialEq, Eq)]
pub enum DrawCommand {
    Sprite(Sprite),
    Text(TextLine),
}

/// A draw command with its text seen as a sequence of characters.
pub enum Drawn {
    Sprite(Sprite),
    Text { label: Seq<char>, size: u32, y: u32, color: TextColor },
}

impl View for DrawCommand {
    type V = Drawn;

    open spec fn view(&self) -> Drawn {
        match self {
            DrawCommand::Sprite(s) => Drawn::Sprite(*s),
            DrawCommand::Text(t) => Drawn::Text { label: t.label@, size: t.size, y: t.y, color: t.color },
        }
    }
}

/// The draw commands of a frame, as values.
pub open spec fn drawn(frame: Seq<DrawCommand>) -> Seq<Drawn> {
    frame.map_values(|c: DrawCommand| c@)
}

/// File that holds the image behind a texture handle.
pub open spec fn texture_file(id: TextureId) -> Seq<char> {
    match id {
        TextureId::Background => "./resources/images/background.png"@,
        TextureId::Character(kind, direction) => match (kind, direction) {
            (CharacterType::PacMan, _) => "./resources/images/pac_man_3.png"@,
            (CharacterType::RedGhost, MoveDirection::Up) => "./resources/images/ghost_red_up.png"@,
            (CharacterType::RedGhost, MoveDirection::Down) => "./resources/images/ghost_red_down.png"@,
            (CharacterType::RedGhost, MoveDirection::Left) => "./resources/images/ghost_red_left.png"@,
            (CharacterType::RedGhost, MoveDirection::Right) => "./resources/images/ghost_red_right.png"@,
            (CharacterType::BlueGhost, MoveDirection::Up) => "./resources/images/ghost_blue_up.png"@,
            (CharacterType::BlueGhost, MoveDirection::Down) => "./resources/images/ghost_blue_down.png"@,
            (CharacterType::BlueGhost, MoveDirection::Left) => "./resources/images/ghost_blue_left.png"@,
            (CharacterType::BlueGhost, MoveDirection::Right) => "./resources/images/ghost_blue_right.png"@,
            (CharacterType::YellowGhost, MoveDirection::Up) => "./resources/images/ghost_yellow_up.png"@,
            (CharacterType::YellowGhost, MoveDirection::Down) => "./resources/images/ghost_yellow_down.png"@,
            (CharacterType::YellowGhost, MoveDirection::Left) => "./resources/images/ghost_yellow_left.png"@,
            (CharacterType::YellowGhost, MoveDirection::Right) => "./resources/images/ghost_yellow_right.png"@,
            (CharacterType::TastyGhost, MoveDirection::Up) => "./resources/images/ghost_tasty_up.png"@,
            (CharacterType::TastyGhost, MoveDirection::Down) => "./resources/images/ghost_tasty_down.png"@,
            (CharacterType::TastyGhost, MoveDirection::Left) => "./resources/images/ghost_tasty_left.png"@,
            (CharacterType::TastyGhost, MoveDirection::Right) => "./resources/images/ghost_tasty_right.png"@,
        },
    }
}

/// Path of the image file to load for a texture handle.
pub fn texture_path(id: TextureId) -> (path: &'static str)
    ensures
        path@ == texture_file(id),
{
    match id {
        TextureId::Background => "./resources/images/background.png",
        TextureId::Character(kind, direction) => match (kind, direction) {
            (CharacterType::PacMan, _) => "./resources/images/pac_man_3.png",
            (CharacterType::RedGhost, MoveDirection::Up) => "./resources/images/ghost_red_up.png",
            (CharacterType::RedGhost, MoveDirection::Down) => "./resources/images/ghost_red_down.png",
            (CharacterType::RedGhost, MoveDirection::Left) => "./resources/images/ghost_red_left.png",
            (CharacterType::RedGhost, MoveDirection::Right) => "./resources/images/ghost_red_right.png",
            (CharacterType::BlueGhost, MoveDirection::Up) => "./resources/images/ghost_blue_up.png",
            (CharacterType::BlueGhost, MoveDirection::Down) => "./resources/images/ghost_blue_down.png",
            (CharacterType::BlueGhost, MoveDirection::Left) => "./resources/images/ghost_blue_left.png",
            (CharacterType::BlueGhost, MoveDirection::Right) => "./resources/images/ghost_blue_right.png",
            (CharacterType::YellowGhost, MoveDirection::Up) => "./resources/images/ghost_yellow_up.png",
            (CharacterType::YellowGhost, MoveDirection::Down) => "./resources/images/ghost_yellow_down.png",
            (CharacterType::YellowGhost, MoveDirection::Left) => "./resources/images/ghost_yellow_left.png",
            (CharacterType::YellowGhost, MoveDirection::Right) => "./resources/images/ghost_yellow_right.png",
            (CharacterType::TastyGhost, MoveDirection::Up) => "./resources/images/ghost_tasty_up.png",
            (CharacterType::TastyGhost, MoveDirection::Down) => "./resources/images/ghost_tasty_down.png",
            (CharacterType::TastyGhost, MoveDirection::Left) => "./resources/images/ghost_tasty_left.png",
            (CharacterType::TastyGhost, MoveDirection::Right) => "./resources/images/ghost_tasty_right.png",
        },
    }
}

/// Left edge that centres content of width `content_width` in an area of
/// width `area_width`.
pub fn centered_left(area_width: u32, content_width: u32) -> (left: u32)
    requires
        content_width <= area_width,
    ensures
        left == (area_width - content_width) / 2,
{
    (area_width - content_width) / 2
}

} // verus!
