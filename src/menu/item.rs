use vstd::prelude::*;

use crate::game_core::EventAction;
use crate::graphics::render::{DrawCommand, Drawn, TextColor, TextLine};

verus! {

/// A menu entry as a value.
pub struct MenuEntry {
    pub label: Seq<char>,
    pub text_size: u32,
    /// Top of the entry's line, in pixels.
    pub position: u32,
    pub selected: bool,
    pub action: EventAction,
}

/// How an entry is drawn: its label at its line, highlighted when selected.
pub open spec fn entry_text(e: MenuEntry) -> Drawn {
    Drawn::Text {
        label: e.label,
        size: e.text_size,
        y: e.position,
        color: if e.selected { TextColor::Highlight } else { TextColor::Base },
    }
}

/// One line of a menu, bound to the signal it gives when confirmed.
pub struct MenuItem {
    label: String,
    text_size: u32,
    position: u32,
    selected: bool,
    action: EventAction,
}

impl View for MenuItem {
    type V = MenuEntry;

    closed spec fn view(&self) -> MenuEntry {
        MenuEntry {
            label: self.label@,
            text_size: self.text_size,
            position: self.position,
            selected: self.selected,
            action: self.action,
        }
    }
}

impl MenuItem {
    pub fn new(
        label: &str,
        text_size: u32,
        position: u32,
        selected: bool,
        action: EventAction,
    ) -> (item: MenuItem)
        ensures
            item@ == (MenuEntry { label: label@, text_size, position, selected, action }),
    {
        MenuItem { label: label.to_owned(), text_size, position, selected, action }
    }

    pub fn select(&mut self, select: bool)
        ensures
            final(self)@ == (MenuEntry { selected: select, ..old(self)@ }),
    {
        self.selected = select;
    }

    pub fn get_action(&self) -> (action: EventAction)
        ensures
            action == self@.action,
    {
        self.action
    }

    pub fn is_selected(&self) -> (selected: bool)
        ensures
            selected == self@.selected,
    {
        self.selected
    }

    pub fn label(&self) -> (label: &str)
        ensures
            label@ == self@.label,
    {
        self.label.as_str()
    }

    pub fn position(&self) -> (position: u32)
        ensures
            position == self@.position,
    {
        self.position
    }

    /// The text line to draw for this entry.
    pub fn render(&self) -> (command: DrawCommand)
        ensures
            command@ == entry_text(self@),
    {
        let color = if self.selected {
            TextColor::Highlight
        } else {
            TextColor::Base
        };
        DrawCommand::Text(
            TextLine { label: self.label.clone(), size: self.text_size, y: self.position, color },
        )
    }
}

} // verus!
