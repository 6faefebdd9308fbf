use vstd::prelude::*;
use crate::keys::{Command, Key, Outcome, command_of};

verus! {

/// The abstract state of the application: the texts of both lists, the
/// active tab (0 for the todo list, 1 for the done list), the selection in
/// the active list, whether text is being typed, and that text.
pub struct Model {
    pub todo: Seq<Seq<char>>,
    pub done: Seq<Seq<char>>,
    pub tab: nat,
    pub selection: nat,
    pub input_mode: bool,
    pub draft: Seq<char>,
}

/// The tab that is not `t`.
pub open spec fn other_tab(t: nat) -> nat {
    if t == 0 {
        1
    } else {
        0
    }
}

/// The selection brought back into a list of `len` items: unchanged when it
/// is in range, the last index when past the end, 0 for an empty list.
pub open spec fn clamp_selection(selection: nat, len: nat) -> nat {
    if len == 0 {
        0
    } else if selection < len {
        selection
    } else {
        (len - 1) as nat
    }
}

impl Model {
    /// The list shown under tab `t`.
    pub open spec fn list(self, t: nat) -> Seq<Seq<char>> {
        if t == 0 {
            self.todo
        } else {
            self.done
        }
    }

    pub open spec fn active(self) -> Seq<Seq<char>> {
        self.list(self.tab)
    }

    /// This state with the list under tab `t` replaced by `l`.
    pub open spec fn with_list(self, t: nat, l: Seq<Seq<char>>) -> Model {
        if t == 0 {
            Model { todo: l, ..self }
        } else {
            Model { done: l, ..self }
        }
    }

    /// The tab is one of the two, the selection lies inside a non-empty active
    /// list and is 0 on an empty one, and no text is pending outside input mode.
    pub open spec fn wf(self) -> bool {
        &&& self.tab < 2
        &&& if self.active().len() == 0 {
            self.selection == 0
        } else {
            self.selection < self.active().len()
        }
        &&& !self.input_mode ==> self.draft.len() == 0
    }
}

/// The start state over two lists: the todo tab, the first item, no typing.
pub open spec fn initial(todo: Seq<Seq<char>>, done: Seq<Seq<char>>) -> Model {
    Model { todo, done, tab: 0, selection: 0, input_mode: false, draft: seq![] }
}

/// Shows the other tab, with the selection clamped into its list.
pub open spec fn next_tab(m: Model) -> Model {
    let t = ((m.tab + 1) % 2) as nat;
    Model { tab: t, selection: clamp_selection(m.selection, m.list(t).len()), ..m }
}

/// Cycles back one tab; with two tabs it shows the other one as `next_tab` does.
pub open spec fn prev_tab(m: Model) -> Model {
    let t = ((m.tab + 2 - 1) % 2) as nat;
    Model { tab: t, selection: clamp_selection(m.selection, m.list(t).len()), ..m }
}

/// Moves the selection down one item, wrapping to the first.
pub open spec fn select_next(m: Model) -> Model {
    let len = m.active().len() as int;
    if len == 0 {
        m
    } else {
        Model { selection: ((m.selection as int + 1) % len) as nat, ..m }
    }
}

/// Moves the selection up one item, wrapping to the last.
pub open spec fn select_prev(m: Model) -> Model {
    let len = m.active().len() as int;
    if len == 0 {
        m
    } else {
        Model { selection: ((m.selection as int + len - 1) % len) as nat, ..m }
    }
}

/// Takes the selected item out of the active list and appends it to the other.
pub open spec fn move_item(m: Model) -> Model {
    let len = m.active().len();
    if len == 0 {
        m
    } else {
        let rest = m.active().remove(m.selection as int);
        let o = other_tab(m.tab);
        let moved = m.with_list(m.tab, rest).with_list(o, m.list(o).push(m.active()[m.selection as int]));
        Model { selection: clamp_selection(m.selection, rest.len()), ..moved }
    }
}

/// Removes the selected item from the active list.
pub open spec fn delete_item(m: Model) -> Model {
    let len = m.active().len();
    if len == 0 {
        m
    } else {
        let rest = m.active().remove(m.selection as int);
        Model { selection: clamp_selection(m.selection, rest.len()), ..m.with_list(m.tab, rest) }
    }
}

/// Starts typing a new item, from an empty text.
pub open spec fn enter_input(m: Model) -> Model {
    Model { input_mode: true, draft: seq![], ..m }
}

/// Removes the last typed character, if any.
pub open spec fn erase_char(m: Model) -> Model {
    if m.draft.len() == 0 {
        m
    } else {
        Model { draft: m.draft.drop_last(), ..m }
    }
}

/// Appends a typed character.
pub open spec fn type_char(m: Model, c: char) -> Model {
    Model { draft: m.draft.push(c), ..m }
}

/// Leaves input mode and discards the typed text.
pub open spec fn cancel_input(m: Model) -> Model {
    Model { input_mode: false, draft: seq![], ..m }
}

/// Appends the typed text to the todo list, whatever tab is shown, and leaves
/// input mode.
pub open spec fn confirm_input(m: Model) -> Model {
    Model { todo: m.todo.push(m.draft), input_mode: false, draft: seq![], ..m }
}

/// The effect of a navigation command on the state.
pub open spec fn navigate(m: Model, cmd: Command) -> Model {
    match cmd {
        Command::NextTab => next_tab(m),
        Command::PrevTab => prev_tab(m),
        Command::SelectNext => select_next(m),
        Command::SelectPrev => select_prev(m),
        Command::MoveItem => move_item(m),
        Command::DeleteItem => delete_item(m),
        Command::EnterInput => enter_input(m),
        _ => m,
    }
}

/// The effect of a key in input mode.
pub open spec fn edit(m: Model, key: Key) -> Model {
    match key {
        Key::Backspace => erase_char(m),
        Key::Char(c) => type_char(m, c),
        Key::Esc => cancel_input(m),
        Key::Enter => confirm_input(m),
        _ => m,
    }
}

/// One transition: the next state and what the run loop does next.
pub open spec fn step(m: Model, key: Key) -> (Model, Outcome) {
    if m.input_mode {
        (edit(m, key), Outcome::Continue)
    } else {
        match command_of(key) {
            Command::Quit => (m, Outcome::Quit),
            Command::ClearScreen => (m, Outcome::ClearScreen),
            cmd => (navigate(m, cmd), Outcome::Continue),
        }
    }
}

/// The state after handling `keys` in order.
pub open spec fn run(m: Model, keys: Seq<Key>) -> Model
    decreases keys.len(),
{
    if keys.len() == 0 {
        m
    } else {
        step(run(m, keys.drop_last()), keys.last()).0
    }
}

/// Cyclic successor of an index, without the modulo.
pub proof fn lemma_wrap_next(selection: int, len: int)
    requires
        0 <= selection < len,
    ensures
        (selection + 1) % len == if selection + 1 == len { 0 } else { selection + 1 },
{
    if selection + 1 == len {
        vstd::arithmetic::div_mod::lemma_mod_self_0(len);
    } else {
        vstd::arithmetic::div_mod::lemma_small_mod((selection + 1) as nat, len as nat);
    }
}

/// Cyclic predecessor of an index, without the modulo.
pub proof fn lemma_wrap_prev(selection: int, len: int)
    requires
        0 <= selection < len,
    ensures
        (selection + len - 1) % len == if selection == 0 { len - 1 } else { selection - 1 },
{
    if selection == 0 {
        vstd::arithmetic::div_mod::lemma_small_mod((len - 1) as nat, len as nat);
    } else {
        vstd::arithmetic::div_mod::lemma_mod_add_multiples_vanish(selection - 1, len);
        vstd::arithmetic::div_mod::lemma_small_mod((selection - 1) as nat, len as nat);
    }
}

/// Every navigation command keeps the state well formed.
pub proof fn lemma_navigate_wf(m: Model, cmd: Command)
    requires
        m.wf(),
    ensures
        navigate(m, cmd).wf(),
{
    let len = m.active().len() as int;
    match cmd {
        Command::SelectNext => {
            if len > 0 {
                assert(0 <= (m.selection as int + 1) % len < len);
            }
        },
        Command::SelectPrev => {
            if len > 0 {
                assert(0 <= (m.selection as int + len - 1) % len < len);
            }
        },
        Command::MoveItem => {
            if len > 0 {
                let r = move_item(m);
                assert(r.active() == m.active().remove(m.selection as int));
            }
        },
        Command::DeleteItem => {
            if len > 0 {
                let r = delete_item(m);
                assert(r.active() == m.active().remove(m.selection as int));
            }
        },
        _ => {},
    }
}

/// Every key in input mode keeps the state well formed.
pub proof fn lemma_edit_wf(m: Model, key: Key)
    requires
        m.wf(),
        m.input_mode,
    ensures
        edit(m, key).wf(),
{
}

/// Every transition keeps the state well formed.
pub proof fn lemma_step_wf(m: Model, key: Key)
    requires
        m.wf(),
    ensures
        step(m, key).0.wf(),
{
    if m.input_mode {
        lemma_edit_wf(m, key);
    } else {
        lemma_navigate_wf(m, command_of(key));
    }
}

} // verus!
