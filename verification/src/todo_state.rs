//! The todo list: a list of entries and the text of the entry being written.
use vstd::prelude::*;

use crate::text::{join_lines, joined_lines, texts};

verus! {

/// The state of the todo list.
#[derive(Debug)]
pub struct TodoState {
    /// The entries, oldest first.
    pub todos: Vec<String>,
    /// The text typed for the next entry.
    pub todo_content_add: String,
}

impl TodoState {
    /// Replaces the text typed for the next entry.
    pub fn on_input_todo_content(&mut self, content: String)
        ensures
            final(self).todo_content_add == content,
            final(self).todos == old(self).todos,
    {
        self.todo_content_add = content;
    }

    /// Adds the typed text as the last entry and clears the input.
    pub fn on_click_add(&mut self)
        ensures
            final(self).todos@ == old(self).todos@.push(old(self).todo_content_add),
            final(self).todo_content_add@ == Seq::<char>::empty(),
    {
        let mut new_todos = self.todos.clone();
        assert(new_todos@ =~= self.todos@);

        let mut new_todo_content = String::new();
        std::mem::swap(&mut self.todo_content_add, &mut new_todo_content);

        new_todos.push(new_todo_content);

        self.todos = new_todos;
    }
}

impl Default for TodoState {
    fn default() -> (r: Self)
        ensures
            r.todos@.len() == 0,
            r.todo_content_add@ == Seq::<char>::empty(),
    {
        TodoState { todos: Vec::new(), todo_content_add: String::new() }
    }
}

/// The todo window: the state it shows and edits.
#[derive(Debug)]
pub struct MyApp {
    pub state: TodoState,
}

impl MyApp {
    /// One frame of the window. `edited_input` is the input line's new text when
    /// the user changed it in this frame, `add_clicked` whether "Add" was clicked.
    /// The edit is applied first, then the click; the result is the text shown
    /// under them, the entries one per line.
    pub fn update(&mut self, edited_input: Option<String>, add_clicked: bool) -> (shown: String)
        ensures
            final(self).state.todo_content_add@ == if add_clicked {
                Seq::<char>::empty()
            } else {
                match edited_input {
                    Some(text) => text@,
                    None => old(self).state.todo_content_add@,
                }
            },
            final(self).state.todos@ == if add_clicked {
                old(self).state.todos@.push(
                    match edited_input {
                        Some(text) => text,
                        None => old(self).state.todo_content_add,
                    },
                )
            } else {
                old(self).state.todos@
            },
            shown@ == joined_lines(texts(final(self).state.todos@)),
    {
        if let Some(input) = edited_input {
            self.state.on_input_todo_content(input);
        }
        if add_clicked {
            self.state.on_click_add();
        }
        join_lines(&self.state.todos)
    }
}

impl Default for MyApp {
    fn default() -> (r: Self)
        ensures
            r.state.todos@.len() == 0,
            r.state.todo_content_add@ == Seq::<char>::empty(),
    {
        MyApp { state: TodoState::default() }
    }
}

} // verus!
