use vstd::prelude::*;
use vstd::string::StringExecFns;
use crate::keys::{Command, Key, Outcome, command_for};
use crate::model;
use crate::model::{Model, clamp_selection, initial, lemma_edit_wf, lemma_navigate_wf, lemma_wrap_next, lemma_wrap_prev, step};

verus! {

/// std's `String::push`: appends `ch` to the end of the string.
pub assume_specification[ String::push ](s: &mut String, ch: char)
    ensures
        final(s)@ == old(s)@.push(ch),
;

/// std's `String::pop`: removes the last character and returns it, or returns
/// `None` and leaves the string alone when it is empty.
pub assume_specification[ String::pop ](s: &mut String) -> (r: Option<char>)
    ensures
        old(s)@.len() == 0 ==> r.is_none() && final(s)@ == old(s)@,
        old(s)@.len() > 0 ==> r == Some(old(s)@.last()) && final(s)@ == old(s)@.drop_last(),
;

/// The texts of a list of strings.
pub open spec fn texts(v: Seq<String>) -> Seq<Seq<char>> {
    v.map_values(|s: String| s@)
}

/// The application state: two lists of items, the tab shown, the selected
/// item, and the text typed in input mode.
pub struct TodoApp {
    todos: Vec<String>,
    dones: Vec<String>,
    tab: usize,
    selection: usize,
    input_mode: bool,
    draft: String,
}

impl View for TodoApp {
    type V = Model;

    closed spec fn view(&self) -> Model {
        Model {
            todo: texts(self.todos@),
            done: texts(self.dones@),
            tab: self.tab as nat,
            selection: self.selection as nat,
            input_mode: self.input_mode,
            draft: self.draft@,
        }
    }
}

/// `clamp_selection` on machine integers.
fn clamp_index(selection: usize, len: usize) -> (r: usize)
    ensures
        r as nat == clamp_selection(selection as nat, len as nat),
{
    if len == 0 {
        0
    } else if selection < len {
        selection
    } else {
        len - 1
    }
}

/// Removes item `i` of `v`, keeping the texts of the others in order.
fn remove_at(v: &mut Vec<String>, i: usize) -> (r: String)
    requires
        i < old(v)@.len(),
    ensures
        texts(final(v)@) == texts(old(v)@).remove(i as int),
        r@ == texts(old(v)@)[i as int],
{
    let r = v.remove(i);
    assert(texts(v@) =~= texts(old(v)@).remove(i as int));
    r
}

/// Appends `s` to `v`.
fn append_item(v: &mut Vec<String>, s: String)
    ensures
        texts(final(v)@) == texts(old(v)@).push(s@),
{
    v.push(s);
    assert(texts(v@) =~= texts(old(v)@).push(s@));
}

/// The items the todo list starts with.
pub open spec fn sample_todos() -> Seq<Seq<char>> {
    seq!["make a todo tui app"@, "learning rust"@, "make a cup of tea"@]
}

/// The items the done list starts with.
pub open spec fn sample_dones() -> Seq<Seq<char>> {
    seq!["read a rust manual"@, "read arch linux wiki"@]
}

impl TodoApp {
    pub open spec fn wf(&self) -> bool {
        self@.wf()
    }

    /// The start state with the sample items.
    pub fn new() -> (r: TodoApp)
        ensures
            r@ == initial(sample_todos(), sample_dones()),
            r.wf(),
    {
        let todos = vec![
            String::from_str("make a todo tui app"),
            String::from_str("learning rust"),
            String::from_str("make a cup of tea"),
        ];
        let dones = vec![String::from_str("read a rust manual"), String::from_str("read arch linux wiki")];
        assert(texts(todos@) =~= sample_todos());
        assert(texts(dones@) =~= sample_dones());
        TodoApp::with_lists(todos, dones)
    }

    /// The start state over two lists.
    pub fn with_lists(todos: Vec<String>, dones: Vec<String>) -> (r: TodoApp)
        ensures
            r@ == initial(texts(todos@), texts(dones@)),
            r.wf(),
    {
        TodoApp { todos, dones, tab: 0, selection: 0, input_mode: false, draft: String::new() }
    }

    /// The todo list.
    pub fn todos(&self) -> (r: &Vec<String>)
        ensures
            texts(r@) == self@.todo,
    {
        &self.todos
    }

    /// The done list.
    pub fn dones(&self) -> (r: &Vec<String>)
        ensures
            texts(r@) == self@.done,
    {
        &self.dones
    }

    /// The list under the tab shown.
    pub fn active_collection(&self) -> (r: &Vec<String>)
        ensures
            texts(r@) == self@.active(),
    {
        if self.tab == 0 {
            &self.todos
        } else {
            &self.dones
        }
    }

    /// The tab shown: 0 for the todo list, 1 for the done list.
    pub fn active_tab(&self) -> (r: usize)
        ensures
            r as nat == self@.tab,
    {
        self.tab
    }

    /// The index of the selected item; 0 when the list shown is empty.
    pub fn selection(&self) -> (r: usize)
        ensures
            r as nat == self@.selection,
    {
        self.selection
    }

    /// The selected item, if the list shown has one.
    pub fn selected_item(&self) -> (r: Option<&String>)
        requires
            self.wf(),
        ensures
            self@.active().len() == 0 ==> r.is_none(),
            self@.active().len() > 0 ==> r.is_some() && r.unwrap()@ == self@.active()[self@.selection as int],
    {
        let list = self.active_collection();
        if list.len() == 0 {
            None
        } else {
            Some(&list[self.selection])
        }
    }

    pub fn is_input_mode(&self) -> (r: bool)
        ensures
            r == self@.input_mode,
    {
        self.input_mode
    }

    /// The text typed so far in input mode.
    pub fn draft(&self) -> (r: &String)
        ensures
            r@ == self@.draft,
    {
        &self.draft
    }

    /// The length of the list under tab `t`.
    fn list_len(&self, t: usize) -> (r: usize)
        ensures
            r as nat == self@.list(t as nat).len(),
    {
        if t == 0 {
            self.todos.len()
        } else {
            self.dones.len()
        }
    }

    /// Shows the other tab and clamps the selection into its list.
    pub fn next_tab(&mut self)
        requires
            old(self).wf(),
        ensures
            final(self)@ == model::next_tab(old(self)@),
            final(self).wf(),
    {
        let t: usize = if self.tab == 0 { 1 } else { 0 };
        let len = self.list_len(t);
        self.tab = t;
        self.selection = clamp_index(self.selection, len);
        proof {
            lemma_navigate_wf(old(self)@, Command::NextTab);
        }
    }

    /// Cycles back one tab; with two tabs this shows the other one.
    pub fn prev_tab(&mut self)
        requires
            old(self).wf(),
        ensures
            final(self)@ == model::prev_tab(old(self)@),
            final(self).wf(),
    {
        let t: usize = if self.tab == 0 { 1 } else { 0 };
        let len = self.list_len(t);
        self.tab = t;
        self.selection = clamp_index(self.selection, len);
        proof {
            lemma_navigate_wf(old(self)@, Command::PrevTab);
        }
    }

    /// Selects the next item of the list shown, wrapping to the first;
    /// nothing happens on an empty list.
    pub fn select_next(&mut self)
        requires
            old(self).wf(),
        ensures
            final(self)@ == model::select_next(old(self)@),
            final(self).wf(),
    {
        let len = self.list_len(self.tab);
        if len > 0 {
            self.selection = if self.selection + 1 == len { 0 } else { self.selection + 1 };
            proof {
                lemma_wrap_next(old(self).selection as int, len as int);
            }
        }
        proof {
            lemma_navigate_wf(old(self)@, Command::SelectNext);
        }
    }

    /// Selects the previous item of the list shown, wrapping to the last;
    /// nothing happens on an empty list.
    pub fn select_prev(&mut self)
        requires
            old(self).wf(),
        ensures
            final(self)@ == model::select_prev(old(self)@),
            final(self).wf(),
    {
        let len = self.list_len(self.tab);
        if len > 0 {
            self.selection = if self.selection == 0 { len - 1 } else { self.selection - 1 };
            proof {
                lemma_wrap_prev(old(self).selection as int, len as int);
            }
        }
        proof {
            lemma_navigate_wf(old(self)@, Command::SelectPrev);
        }
    }

    /// Moves the selected item to the end of the other list and clamps the
    /// selection; nothing happens on an empty list.
    pub fn move_item(&mut self)
        requires
            old(self).wf(),
        ensures
            final(self)@ == model::move_item(old(self)@),
            final(self).wf(),
    {
        if self.tab == 0 {
            if self.todos.len() > 0 {
                let item = remove_at(&mut self.todos, self.selection);
                append_item(&mut self.dones, item);
                self.selection = clamp_index(self.selection, self.todos.len());
            }
        } else {
            if self.dones.len() > 0 {
                let item = remove_at(&mut self.dones, self.selection);
                append_item(&mut self.todos, item);
                self.selection = clamp_index(self.selection, self.dones.len());
            }
        }
        proof {
            lemma_navigate_wf(old(self)@, Command::MoveItem);
        }
    }

    /// Deletes the selected item and clamps the selection; nothing happens on
    /// an empty list.
    pub fn delete_item(&mut self)
        requires
            old(self).wf(),
        ensures
            final(self)@ == model::delete_item(old(self)@),
            final(self).wf(),
    {
        if self.tab == 0 {
            if self.todos.len() > 0 {
                let _ = remove_at(&mut self.todos, self.selection);
                self.selection = clamp_index(self.selection, self.todos.len());
            }
        } else {
            if self.dones.len() > 0 {
                let _ = remove_at(&mut self.dones, self.selection);
                self.selection = clamp_index(self.selection, self.dones.len());
            }
        }
        proof {
            lemma_navigate_wf(old(self)@, Command::DeleteItem);
        }
    }

    /// Starts input mode with an empty text.
    pub fn enter_input(&mut self)
        requires
            old(self).wf(),
        ensures
            final(self)@ == model::enter_input(old(self)@),
            final(self).wf(),
    {
        self.input_mode = true;
        self.draft = String::new();
    }

    /// Removes the last typed character, if there is one.
    pub fn erase_char(&mut self)
        requires
            old(self).wf(),
            old(self)@.input_mode,
        ensures
            final(self)@ == model::erase_char(old(self)@),
            final(self).wf(),
    {
        let _ = self.draft.pop();
        proof {
            lemma_edit_wf(old(self)@, Key::Backspace);
        }
    }

    /// Appends a typed character to the text.
    pub fn type_char(&mut self, c: char)
        requires
            old(self).wf(),
            old(self)@.input_mode,
        ensures
            final(self)@ == model::type_char(old(self)@, c),
            final(self).wf(),
    {
        self.draft.push(c);
    }

    /// Leaves input mode and discards the text.
    pub fn cancel_input(&mut self)
        requires
            old(self).wf(),
        ensures
            final(self)@ == model::cancel_input(old(self)@),
            final(self).wf(),
    {
        self.input_mode = false;
        self.draft = String::new();
    }

    /// Appends the typed text to the todo list, whichever tab is shown, and
    /// leaves input mode.
    pub fn confirm_input(&mut self)
        requires
            old(self).wf(),
        ensures
            final(self)@ == model::confirm_input(old(self)@),
            final(self).wf(),
    {
        let mut text = String::new();
        std::mem::swap(&mut text, &mut self.draft);
        append_item(&mut self.todos, text);
        self.input_mode = false;
    }

    /// Handles one key: edits the text in input mode, runs the bound command
    /// otherwise, and says whether the run loop goes on, clears the screen or
    /// stops.
    pub fn handle_key(&mut self, key: Key) -> (r: Outcome)
        requires
            old(self).wf(),
        ensures
            (final(self)@, r) == step(old(self)@, key),
            final(self).wf(),
    {
        if self.input_mode {
            match key {
                Key::Backspace => self.erase_char(),
                Key::Char(c) => self.type_char(c),
                Key::Esc => self.cancel_input(),
                Key::Enter => self.confirm_input(),
                _ => {},
            }
            Outcome::Continue
        } else {
            match command_for(key) {
                Command::Quit => Outcome::Quit,
                Command::ClearScreen => Outcome::ClearScreen,
                Command::NextTab => {
                    self.next_tab();
                    Outcome::Continue
                },
                Command::PrevTab => {
                    self.prev_tab();
                    Outcome::Continue
                },
                Command::SelectNext => {
                    self.select_next();
                    Outcome::Continue
                },
                Command::SelectPrev => {
                    self.select_prev();
                    Outcome::Continue
                },
                Command::MoveItem => {
                    self.move_item();
                    Outcome::Continue
                },
                Command::DeleteItem => {
                    self.delete_item();
                    Outcome::Continue
                },
                Command::EnterInput => {
                    self.enter_input();
                    Outcome::Continue
                },
                Command::Ignore => Outcome::Continue,
            }
        }
    }
}

} // verus!
