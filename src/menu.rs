pub mod item;

use vstd::prelude::*;

use crate::game_core::{is_leave_request, EventAction, GameDrawableState, GameStateModel, InputEvent, Key};
use crate::graphics::render::{drawn, DrawCommand, Drawn};
use item::{entry_text, MenuEntry, MenuItem};

verus! {

/// Font size of the menu's entries.
pub const MENU_TEXT_SIZE: u32 = 64;

/// A menu as a value: its entries, top to bottom, and the cursor.
pub struct MenuState {
    pub entries: Seq<MenuEntry>,
    pub cursor: int,
}

/// A well-formed menu has an entry under the cursor, and that entry alone is
/// selected.
pub open spec fn menu_wf(m: MenuState) -> bool {
    &&& 0 < m.entries.len()
    &&& 0 <= m.cursor < m.entries.len()
    &&& forall|i: int| 0 <= i < m.entries.len() ==> (#[trigger] m.entries[i]).selected == (i == m.cursor)
}

/// Exactly one entry of the menu is selected.
pub open spec fn exactly_one_selected(m: MenuState) -> bool {
    exists|i: int|
        0 <= i < m.entries.len() && (#[trigger] m.entries[i]).selected && forall|j: int|
            0 <= j < m.entries.len() && (#[trigger] m.entries[j]).selected ==> j == i
}

/// The menu with the cursor, and the selection, on entry `c`.
pub open spec fn with_cursor(m: MenuState, c: int) -> MenuState {
    MenuState {
        entries: m.entries.map(|i: int, e: MenuEntry| MenuEntry { selected: i == c, ..e }),
        cursor: c,
    }
}

/// The menu after "up": the previous entry, or no change on the first.
pub open spec fn cursor_moved_up(m: MenuState) -> MenuState {
    if m.cursor > 0 {
        with_cursor(m, m.cursor - 1)
    } else {
        m
    }
}

/// The menu after "down": the next entry, or no change on the last.
pub open spec fn cursor_moved_down(m: MenuState) -> MenuState {
    if m.cursor + 1 < m.entries.len() {
        with_cursor(m, m.cursor + 1)
    } else {
        m
    }
}

/// The signal a menu gives for an event: quit on a close request or Escape,
/// the selected entry's action on Enter, nothing otherwise.
pub open spec fn menu_signal(m: MenuState, event: InputEvent) -> EventAction {
    if is_leave_request(event) {
        EventAction::QuitGame
    } else if event == InputEvent::KeyPressed(Key::Enter) {
        m.entries[m.cursor].action
    } else {
        EventAction::Nop
    }
}

/// The menu after an event: Up and Down move the cursor, nothing else changes it.
pub open spec fn menu_after_event(m: MenuState, event: InputEvent) -> MenuState {
    if event == InputEvent::KeyPressed(Key::Up) {
        cursor_moved_up(m)
    } else if event == InputEvent::KeyPressed(Key::Down) {
        cursor_moved_down(m)
    } else {
        m
    }
}

/// The menu after a run of events, first to last.
pub open spec fn menu_after_events(m: MenuState, events: Seq<InputEvent>) -> MenuState
    decreases events.len(),
{
    if events.len() == 0 {
        m
    } else {
        menu_after_event(menu_after_events(m, events.drop_last()), events.last())
    }
}

/// The menu the game opens with: "New game", "High score" and "Exit", stacked
/// one line apart, the first selected.
pub open spec fn initial_menu(line_height: u32) -> MenuState {
    MenuState {
        entries: seq![
            MenuEntry {
                label: "New game"@,
                text_size: MENU_TEXT_SIZE,
                position: 0,
                selected: true,
                action: EventAction::StartNewGame,
            },
            MenuEntry {
                label: "High score"@,
                text_size: MENU_TEXT_SIZE,
                position: line_height,
                selected: false,
                action: EventAction::Nop,
            },
            MenuEntry {
                label: "Exit"@,
                text_size: MENU_TEXT_SIZE,
                position: (2 * line_height) as u32,
                selected: false,
                action: EventAction::QuitGame,
            },
        ],
        cursor: 0,
    }
}

/// What a menu draws: each entry, top to bottom.
pub open spec fn menu_frame(m: MenuState) -> Seq<Drawn> {
    m.entries.map_values(|e: MenuEntry| entry_text(e))
}

proof fn lemma_event_keeps_wf(m: MenuState, event: InputEvent)
    requires
        menu_wf(m),
    ensures
        menu_wf(menu_after_event(m, event)),
        menu_after_event(m, event).entries.len() == m.entries.len(),
        forall|i: int|
            0 <= i < m.entries.len() ==> (#[trigger] menu_after_event(m, event).entries[i]).action
                == m.entries[i].action,
{
}

proof fn lemma_events_keep_wf(m: MenuState, events: Seq<InputEvent>)
    requires
        menu_wf(m),
    ensures
        menu_wf(menu_after_events(m, events)),
        menu_after_events(m, events).entries.len() == m.entries.len(),
        forall|i: int|
            0 <= i < m.entries.len() ==> (#[trigger] menu_after_events(m, events).entries[i]).action
                == m.entries[i].action,
    decreases events.len(),
{
    if events.len() > 0 {
        let before = menu_after_events(m, events.drop_last());
        lemma_events_keep_wf(m, events.drop_last());
        lemma_event_keeps_wf(before, events.last());
        assert forall|i: int| 0 <= i < m.entries.len() implies (#[trigger] menu_after_events(
            m,
            events,
        ).entries[i]).action == m.entries[i].action by {
            assert(before.entries[i].action == m.entries[i].action);
        }
    }
}

/// Exactly one entry of a menu is selected: right after it is built, and after
/// any run of input events from there.
pub proof fn lemma_one_entry_selected(line_height: u32, events: Seq<InputEvent>)
    ensures
        exactly_one_selected(initial_menu(line_height)),
        exactly_one_selected(menu_after_events(initial_menu(line_height), events)),
{
    let m = initial_menu(line_height);
    lemma_wf_has_one_selected(m);
    lemma_events_keep_wf(m, events);
    lemma_wf_has_one_selected(menu_after_events(m, events));
}

/// A well-formed menu has exactly one selected entry, and stays well-formed
/// through any run of input events.
pub proof fn lemma_wf_keeps_one_selected(m: MenuState, events: Seq<InputEvent>)
    requires
        menu_wf(m),
    ensures
        menu_wf(menu_after_events(m, events)),
        exactly_one_selected(menu_after_events(m, events)),
{
    lemma_events_keep_wf(m, events);
    lemma_wf_has_one_selected(menu_after_events(m, events));
}

proof fn lemma_wf_has_one_selected(m: MenuState)
    requires
        menu_wf(m),
    ensures
        exactly_one_selected(m),
{
    assert(m.entries[m.cursor].selected);
}

/// The cursor saturates: "up" on the first entry and "down" on the last leave
/// the menu, cursor and selection, as it was.
pub proof fn lemma_cursor_saturates(m: MenuState)
    requires
        menu_wf(m),
    ensures
        m.cursor == 0 ==> menu_after_event(m, InputEvent::KeyPressed(Key::Up)) == m,
        m.cursor == m.entries.len() - 1 ==> menu_after_event(m, InputEvent::KeyPressed(Key::Down))
            == m,
{
}

/// Whatever events came before, confirming gives the action bound to the entry
/// that is selected at that moment.
pub proof fn lemma_confirm_gives_selected_action(
    m: MenuState,
    events: Seq<InputEvent>,
    i: int,
)
    requires
        menu_wf(m),
        0 <= i < m.entries.len(),
        menu_after_events(m, events).entries[i].selected,
    ensures
        menu_signal(menu_after_events(m, events), InputEvent::KeyPressed(Key::Enter))
            == m.entries[i].action,
{
    lemma_events_keep_wf(m, events);
}

/// The start screen: a list of entries with one cursor.
pub struct Menu {
    items: Vec<MenuItem>,
    cursor_position: usize,
}

impl View for Menu {
    type V = MenuState;

    closed spec fn view(&self) -> MenuState {
        MenuState {
            entries: self.items@.map_values(|item: MenuItem| item@),
            cursor: self.cursor_position as int,
        }
    }
}

impl Menu {
    pub open spec fn wf(&self) -> bool {
        menu_wf(self@)
    }

    /// Builds the menu, its entries `line_height` pixels apart.
    pub fn new(line_height: u32) -> (menu: Menu)
        requires
            2 * line_height <= u32::MAX,
        ensures
            menu@ == initial_menu(line_height),
            menu.wf(),
    {
        let mut items: Vec<MenuItem> = Vec::new();
        items.push(MenuItem::new("New game", MENU_TEXT_SIZE, 0, true, EventAction::StartNewGame));
        items.push(MenuItem::new("High score", MENU_TEXT_SIZE, line_height, false, EventAction::Nop));
        items.push(MenuItem::new("Exit", MENU_TEXT_SIZE, 2 * line_height, false, EventAction::QuitGame));
        let menu = Menu { items, cursor_position: 0 };
        assert(menu@.entries =~= initial_menu(line_height).entries);
        menu
    }

    /// Moves the selection to entry `c`.
    fn move_cursor(&mut self, c: usize)
        requires
            old(self).wf(),
            c < old(self)@.entries.len(),
        ensures
            final(self)@ == with_cursor(old(self)@, c as int),
            final(self).wf(),
    {
        let ghost m = self@;
        let ghost before = self.items@;
        let old_cursor = self.cursor_position;
        self.items[old_cursor].select(false);
        self.cursor_position = c;
        self.items[c].select(true);
        assert forall|i: int| 0 <= i < before.len() implies (#[trigger] self.items@[i])@ == (
        MenuEntry { selected: i == c, ..before[i]@ }) by {
            assert(m.entries[i] == before[i]@);
        }
        assert(self@.entries =~= with_cursor(m, c as int).entries);
    }

    pub fn cursor_up(&mut self)
        requires
            old(self).wf(),
        ensures
            final(self)@ == cursor_moved_up(old(self)@),
            final(self).wf(),
    {
        if self.cursor_position > 0 {
            let c = self.cursor_position - 1;
            self.move_cursor(c);
        }
    }

    pub fn cursor_down(&mut self)
        requires
            old(self).wf(),
        ensures
            final(self)@ == cursor_moved_down(old(self)@),
            final(self).wf(),
    {
        if self.cursor_position < self.items.len() - 1 {
            let c = self.cursor_position + 1;
            self.move_cursor(c);
        }
    }

    /// The action bound to the selected entry.
    pub fn select_action(&self) -> (action: EventAction)
        requires
            self.wf(),
        ensures
            action == self@.entries[self@.cursor].action,
    {
        self.items[self.cursor_position].get_action()
    }

    pub fn cursor_position(&self) -> (cursor: usize)
        ensures
            cursor == self@.cursor,
    {
        self.cursor_position
    }

    /// The entries, top to bottom.
    pub fn items(&self) -> (items: &[MenuItem])
        ensures
            items@.map_values(|item: MenuItem| item@) == self@.entries,
    {
        self.items.as_slice()
    }
}

impl GameStateModel for Menu {
    open spec fn valid(&self) -> bool {
        self.wf()
    }

    open spec fn can_update(&self) -> bool {
        true
    }

    fn handle_keyboard(&mut self, event: &InputEvent) -> (action: EventAction)
        ensures
            action == menu_signal(old(self)@, *event),
            final(self)@ == menu_after_event(old(self)@, *event),
    {
        match event {
            InputEvent::Closed | InputEvent::KeyPressed(Key::Escape) => EventAction::QuitGame,
            InputEvent::KeyPressed(Key::Up) => {
                self.cursor_up();
                EventAction::Nop
            },
            InputEvent::KeyPressed(Key::Down) => {
                self.cursor_down();
                EventAction::Nop
            },
            InputEvent::KeyPressed(Key::Enter) => self.select_action(),
            _ => EventAction::Nop,
        }
    }

    /// The menu has no time-driven behaviour.
    fn update_state(&mut self)
        ensures
            final(self)@ == old(self)@,
    {
    }
}

impl GameDrawableState for Menu {
    fn render(&self) -> (frame: Vec<DrawCommand>)
        ensures
            drawn(frame@) == menu_frame(self@),
    {
        let mut frame: Vec<DrawCommand> = Vec::new();
        let mut i: usize = 0;
        while i < self.items.len()
            invariant
                i <= self.items@.len(),
                frame@.len() == i,
                forall|j: int| 0 <= j < i ==> (#[trigger] frame@[j])@ == menu_frame(self@)[j],
            decreases self.items@.len() - i,
        {
            let command = self.items[i].render();
            assert(command@ == menu_frame(self@)[i as int]);
            frame.push(command);
            i = i + 1;
        }
        assert(drawn(frame@) =~= menu_frame(self@));
        frame
    }
}

} // verus!
