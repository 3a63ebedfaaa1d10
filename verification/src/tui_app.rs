//! The decisions of the terminal launcher: what each key does to the filter and
//! the selection, when to draw, when to load the programs and why it stopped.
//! The terminal itself (reading events, drawing) is driven from outside.
use vstd::prelude::*;

use crate::launch_item::LaunchItem;
use crate::launcher_state::{first_selection, visible_items, LauncherState};
use crate::list_nav::{
    list_scroll_down_by, list_scroll_up_by, list_select_next, list_select_previous,
    next_selection, previous_selection, scrolled_down, scrolled_up,
};
use crate::text::{decimal_text, push_char, usize_to_text};

verus! {

/// Why the launcher stopped.
#[derive(Debug, Clone, Copy, PartialEq, Eq, Structural)]
pub enum StopReason {
    /// The user left without choosing.
    Exit,
    /// The user chose the selected program.
    LaunchApp,
}

impl Default for StopReason {
    fn default() -> (r: Self)
        ensures
            r == StopReason::Exit,
    {
        StopReason::Exit
    }
}

/// What the launcher hands back when it stops.
#[derive(Debug)]
pub struct StopDetails {
    pub stop_reason: StopReason,
    /// The selected program at the time it stopped, if any.
    pub selected_item: Option<LaunchItem>,
}

/// The keys the launcher tells apart.
#[derive(Debug, Clone, Copy, PartialEq, Eq, Structural)]
pub enum KeyCode {
    Char(char),
    Esc,
    Backspace,
    Enter,
    Up,
    Down,
    PageUp,
    PageDown,
    /// Any other key.
    Other,
}

/// A key, and whether Control was the only modifier held with it.
#[derive(Debug, Clone, Copy, PartialEq, Eq, Structural)]
pub struct KeyInput {
    pub code: KeyCode,
    pub control_only: bool,
}

/// A terminal event, as far as the launcher tells events apart.
#[derive(Debug, Clone, Copy, PartialEq, Eq, Structural)]
pub enum TermEvent {
    /// A key event; `pressed` is false for a release or a repeat.
    Key { key: KeyInput, pressed: bool },
    Mouse,
    Resize,
    Other,
}

/// Esc, or Control and `c` (either case), stops the launcher without a choice.
pub open spec fn is_quit_key(key: KeyInput) -> bool {
    ||| key.code == KeyCode::Esc
    ||| key.control_only && (key.code == KeyCode::Char('c') || key.code == KeyCode::Char('C'))
}

/// The keys that move the selection.
pub open spec fn is_move_key(code: KeyCode) -> bool {
    ||| code == KeyCode::Up
    ||| code == KeyCode::Down
    ||| code == KeyCode::PageUp
    ||| code == KeyCode::PageDown
}

/// The filter text after Backspace: one character shorter, or still empty.
pub open spec fn erased_last(query: Seq<char>) -> Seq<char> {
    if query.len() == 0 {
        query
    } else {
        query.drop_last()
    }
}

/// Backspace cuts the filter text one byte before its end, which is only a
/// character boundary when the text is empty or ends in an ASCII character.
pub open spec fn key_allowed(query: Seq<char>, key: KeyInput) -> bool {
    key.code == KeyCode::Backspace ==> (query.len() == 0 || (query.last() as u32) < 0x80)
}

/// The selection after a moving key, with `page` rows to a page.
pub open spec fn moved_selection(selected: Option<usize>, code: KeyCode, page: u16) -> Option<
    usize,
> {
    match code {
        KeyCode::Up => previous_selection(selected),
        KeyCode::Down => next_selection(selected),
        KeyCode::PageUp => scrolled_up(selected, page),
        KeyCode::PageDown => scrolled_down(selected, page),
        _ => selected,
    }
}

/// The text of a row of the list: the program's number in brackets, then its name.
pub open spec fn row_text(item: LaunchItem) -> Seq<char> {
    seq!['['] + decimal_text(item.id as nat) + seq![']', ':', ' '] + item.name@
}

/// The terminal launcher.
#[derive(Debug)]
pub struct App {
    /// The event loop goes on while this holds.
    pub running: bool,
    pub stop_reason: StopReason,
    /// The screen is to be drawn again.
    pub redraw: bool,
    pub state: LauncherState,
    /// The selection of the list as drawn last.
    pub list_selected: Option<usize>,
    /// How many rows the list showed when drawn last.
    pub list_page_size: u16,
}

impl App {
    /// Filter text, shown list and selection are unchanged.
    pub open spec fn same_list(pre: App, post: App) -> bool {
        &&& post.state.filter_query == pre.state.filter_query
        &&& post.state.data_filtered == pre.state.data_filtered
        &&& post.state.selected_index == pre.state.selected_index
        &&& post.list_selected == pre.list_selected
    }

    /// The filter text became `query`, the list shows what matches it, the
    /// first row is selected and the screen is to be drawn.
    pub open spec fn filtered_to(pre: App, post: App, query: Seq<char>) -> bool {
        &&& post.state.filter_query@ == query
        &&& post.state.data_filtered@ == visible_items(pre.state.data@, query)
        &&& post.state.selected_index == first_selection(post.state.data_filtered@)
        &&& post.list_selected == pre.list_selected
        &&& post.redraw
        &&& post.running == pre.running
        &&& post.stop_reason == pre.stop_reason
    }

    /// The selection moved to `selected`, in the list and in the state, and the
    /// screen is to be drawn.
    pub open spec fn moved_to(pre: App, post: App, selected: Option<usize>) -> bool {
        &&& post.list_selected == selected
        &&& post.state.selected_index == selected
        &&& post.state.filter_query == pre.state.filter_query
        &&& post.state.data_filtered == pre.state.data_filtered
        &&& post.redraw
        &&& post.running == pre.running
        &&& post.stop_reason == pre.stop_reason
    }

    /// The launcher stopped for `reason`, leaving all else as it was.
    pub open spec fn stopped(pre: App, post: App, reason: StopReason) -> bool {
        &&& !post.running
        &&& post.stop_reason == reason
        &&& post.redraw == pre.redraw
        &&& App::same_list(pre, post)
    }

    /// What one pressed key does to the launcher.
    pub open spec fn key_step(pre: App, post: App, key: KeyInput) -> bool {
        let query = pre.state.filter_query@;
        &&& post.state.data == pre.state.data
        &&& post.state.loaded == pre.state.loaded
        &&& post.list_page_size == pre.list_page_size
        &&& if is_quit_key(key) {
            App::stopped(pre, post, StopReason::Exit)
        } else if is_move_key(key.code) {
            App::moved_to(pre, post, moved_selection(pre.list_selected, key.code, pre.list_page_size))
        } else {
            match key.code {
                KeyCode::Char(c) => App::filtered_to(pre, post, query.push(c)),
                KeyCode::Backspace => App::filtered_to(pre, post, erased_last(query)),
                KeyCode::Enter => App::stopped(pre, post, StopReason::LaunchApp),
                _ => post == pre,
            }
        }
    }

    /// A launcher that has not started, with nothing loaded.
    pub fn new() -> (r: Self)
        ensures
            !r.running,
            !r.redraw,
            r.stop_reason == StopReason::Exit,
            r.state.is_initial(),
            r.list_selected is None,
            r.list_page_size == 0,
    {
        Self::default()
    }

    /// Starts the event loop: running, with the screen to be drawn.
    pub fn start(&mut self)
        ensures
            final(self).running,
            final(self).redraw,
            final(self).stop_reason == old(self).stop_reason,
            final(self).state == old(self).state,
            final(self).list_selected == old(self).list_selected,
            final(self).list_page_size == old(self).list_page_size,
    {
        self.redraw = true;
        self.running = true;
    }

    /// Decides whether this turn of the loop draws. When it does, the request to
    /// draw is consumed and the list takes the state's selection.
    pub fn begin_frame(&mut self) -> (draw: bool)
        ensures
            draw == old(self).redraw,
            !final(self).redraw,
            final(self).list_selected == if draw {
                old(self).state.selected_index
            } else {
                old(self).list_selected
            },
            final(self).running == old(self).running,
            final(self).stop_reason == old(self).stop_reason,
            final(self).state == old(self).state,
            final(self).list_page_size == old(self).list_page_size,
    {
        if self.redraw {
            self.redraw = false;
            self.before_render();
            true
        } else {
            false
        }
    }

    /// The list takes the state's selection where the two differ.
    fn before_render(&mut self)
        ensures
            final(self).list_selected == old(self).state.selected_index,
            final(self).running == old(self).running,
            final(self).redraw == old(self).redraw,
            final(self).stop_reason == old(self).stop_reason,
            final(self).state == old(self).state,
            final(self).list_page_size == old(self).list_page_size,
    {
        let differs = match (self.list_selected, self.state.selected_index) {
            (Some(a), Some(b)) => a != b,
            (None, None) => false,
            _ => true,
        };
        if differs {
            self.list_selected = self.state.selected_index;
        }
    }

    /// The rows of the list: for each shown program, its number in brackets and its name.
    pub fn list_lines(&self) -> (rows: Vec<String>)
        ensures
            rows@.len() == self.state.data_filtered@.len(),
            forall|i: int|
                0 <= i < rows@.len() ==> #[trigger] rows@[i]@ == row_text(
                    self.state.data_filtered@[i],
                ),
    {
        let mut rows: Vec<String> = Vec::new();
        for i in 0..self.state.data_filtered.len()
            invariant
                rows@.len() == i,
                forall|j: int|
                    0 <= j < i ==> #[trigger] rows@[j]@ == row_text(self.state.data_filtered@[j]),
        {
            rows.push(row_of(&self.state.data_filtered[i]));
        }
        rows
    }

    /// Takes in what drawing left: the list's selection as drawn and the number
    /// of rows it had. Says whether the programs are still to be loaded.
    pub fn after_render(&mut self, drawn_selected: Option<usize>, list_height: u16) -> (load:
        bool)
        ensures
            load == !old(self).state.loaded,
            final(self).list_selected == drawn_selected,
            final(self).list_page_size == list_height,
            final(self).running == old(self).running,
            final(self).redraw == old(self).redraw,
            final(self).stop_reason == old(self).stop_reason,
            final(self).state == old(self).state,
    {
        self.list_page_size = list_height;
        self.list_selected = drawn_selected;
        !self.state.loaded
    }

    /// Stores the loaded programs (see `LauncherState::fetch_data`).
    pub fn load_items(&mut self, items: Vec<LaunchItem>)
        ensures
            final(self).state.loaded,
            final(self).state.data@ == items@,
            final(self).state.data_filtered@ == items@,
            final(self).state.selected_index == first_selection(items@),
            final(self).state.filter_query == old(self).state.filter_query,
            final(self).running == old(self).running,
            final(self).redraw == old(self).redraw,
            final(self).stop_reason == old(self).stop_reason,
            final(self).list_selected == old(self).list_selected,
            final(self).list_page_size == old(self).list_page_size,
    {
        self.state.fetch_data(items);
    }

    /// Reacts to one terminal event: a pressed key as `on_key_event` says, a
    /// resize by drawing again; anything else changes nothing.
    pub fn handle_event(&mut self, event: TermEvent)
        requires
            match event {
                TermEvent::Key { key, pressed } => pressed ==> key_allowed(
                    old(self).state.filter_query@,
                    key,
                ),
                _ => true,
            },
        ensures
            match event {
                TermEvent::Key { key, pressed } => if pressed {
                    App::key_step(*old(self), *final(self), key)
                } else {
                    *final(self) == *old(self)
                },
                TermEvent::Resize => {
                    &&& final(self).redraw
                    &&& final(self).running == old(self).running
                    &&& final(self).stop_reason == old(self).stop_reason
                    &&& final(self).state == old(self).state
                    &&& final(self).list_selected == old(self).list_selected
                    &&& final(self).list_page_size == old(self).list_page_size
                },
                _ => *final(self) == *old(self),
            },
    {
        match event {
            TermEvent::Key { key, pressed } => {
                if pressed {
                    self.on_key_event(key);
                }
            },
            TermEvent::Mouse => {},
            TermEvent::Resize => {
                self.redraw();
            },
            TermEvent::Other => {},
        }
    }

    fn redraw(&mut self)
        ensures
            final(self).redraw,
            final(self).running == old(self).running,
            final(self).stop_reason == old(self).stop_reason,
            final(self).state == old(self).state,
            final(self).list_selected == old(self).list_selected,
            final(self).list_page_size == old(self).list_page_size,
    {
        self.redraw = true;
    }

    fn quit(&mut self, stop_reason: StopReason)
        ensures
            !final(self).running,
            final(self).stop_reason == stop_reason,
            final(self).redraw == old(self).redraw,
            final(self).state == old(self).state,
            final(self).list_selected == old(self).list_selected,
            final(self).list_page_size == old(self).list_page_size,
    {
        self.running = false;
        self.stop_reason = stop_reason;
    }

    /// Moves the selection of the list and of the state to `selected`.
    fn move_selection(&mut self, selected: Option<usize>)
        ensures
            App::moved_to(*old(self), *final(self), selected),
            final(self).state.data == old(self).state.data,
            final(self).state.loaded == old(self).state.loaded,
            final(self).list_page_size == old(self).list_page_size,
    {
        self.list_selected = selected;
        self.state.update_selected(self.list_selected);
        self.redraw();
    }

    /// Filters by `new_filter` and asks to draw.
    fn refilter(&mut self, new_filter: String)
        ensures
            App::filtered_to(*old(self), *final(self), new_filter@),
            final(self).state.data == old(self).state.data,
            final(self).state.loaded == old(self).state.loaded,
            final(self).list_page_size == old(self).list_page_size,
    {
        self.state.update_filter(new_filter);
        self.redraw();
    }

    /// Reacts to one pressed key. Esc or Control-c stops without a choice and
    /// Enter stops with the selected program; a character is appended to the
    /// filter and Backspace erases its last character, after which the list
    /// shows what matches and its first row is selected; Up, Down, PageUp and
    /// PageDown move the selection by a row or a page.
    pub fn on_key_event(&mut self, key: KeyInput)
        requires
            key_allowed(old(self).state.filter_query@, key),
        ensures
            App::key_step(*old(self), *final(self), key),
    {
        let quit_key = match key.code {
            KeyCode::Esc => true,
            KeyCode::Char(c) => key.control_only && (c == 'c' || c == 'C'),
            _ => false,
        };
        if quit_key {
            self.quit(StopReason::Exit);
            return;
        }
        match key.code {
            KeyCode::Char(c) => {
                let new_filter = with_char_appended(&self.state.filter_query, c);
                self.refilter(new_filter);
            },
            KeyCode::Backspace => {
                let len = self.state.filter_query.as_str().unicode_len();
                let new_filter = if len <= 1 {
                    String::new()
                } else {
                    self.state.filter_query.as_str().substring_char(0, len - 1).to_owned()
                };
                proof {
                    let query = self.state.filter_query@;
                    if len > 1 {
                        assert(query.subrange(0, len - 1) =~= query.drop_last());
                    } else {
                        assert(erased_last(query) =~= Seq::<char>::empty());
                    }
                }
                self.refilter(new_filter);
            },
            KeyCode::Enter => {
                self.quit(StopReason::LaunchApp);
            },
            KeyCode::Up => {
                let selected = list_select_previous(self.list_selected);
                self.move_selection(selected);
            },
            KeyCode::Down => {
                let selected = list_select_next(self.list_selected);
                self.move_selection(selected);
            },
            KeyCode::PageUp => {
                let selected = list_scroll_up_by(self.list_selected, self.list_page_size);
                self.move_selection(selected);
            },
            KeyCode::PageDown => {
                let selected = list_scroll_down_by(self.list_selected, self.list_page_size);
                self.move_selection(selected);
            },
            _ => {},
        }
    }

    /// Why the launcher stopped and the program selected then.
    pub fn into_stop_details(self) -> (r: StopDetails)
        ensures
            r.stop_reason == self.stop_reason,
            r.selected_item == self.state.selected_item(),
    {
        let mut state = self.state;
        let selected_item = state.get_selected();
        StopDetails { stop_reason: self.stop_reason, selected_item }
    }
}

/// The text of the row that shows `item`.
fn row_of(item: &LaunchItem) -> (row: String)
    ensures
        row@ == row_text(*item),
{
    let mut row = String::new();
    push_char(&mut row, '[');
    let number = usize_to_text(item.id);
    row.append(number.as_str());
    push_char(&mut row, ']');
    push_char(&mut row, ':');
    push_char(&mut row, ' ');
    row.append(item.name.as_str());
    assert(row@ =~= row_text(*item));
    row
}

/// `text` with `c` appended.
fn with_char_appended(text: &String, c: char) -> (r: String)
    ensures
        r@ == text@.push(c),
{
    let mut r = text.clone();
    push_char(&mut r, c);
    r
}

impl Default for App {
    fn default() -> (r: Self)
        ensures
            !r.running,
            !r.redraw,
            r.stop_reason == StopReason::Exit,
            r.state.is_initial(),
            r.list_selected is None,
            r.list_page_size == 0,
    {
        App {
            running: false,
            stop_reason: StopReason::default(),
            redraw: false,
            state: LauncherState::default(),
            list_selected: None,
            list_page_size: 0,
        }
    }
}

} // verus!
