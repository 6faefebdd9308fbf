use vstd::prelude::*;
use crate::keys::{Key, Outcome};
use crate::model::{
    Model, delete_item, edit, lemma_step_wf, move_item, next_tab, other_tab, prev_tab, run, step,
};

verus! {

/// Handling `a` and then `b` is handling `a + b`.
pub proof fn lemma_run_append(m: Model, a: Seq<Key>, b: Seq<Key>)
    ensures
        run(m, a + b) == run(run(m, a), b),
    decreases b.len(),
{
    if b.len() == 0 {
        assert(a + b =~= a);
    } else {
        lemma_run_append(m, a, b.drop_last());
        assert((a + b).drop_last() =~= a + b.drop_last());
        assert((a + b).last() == b.last());
    }
}

/// From a well-formed state, every sequence of keys leaves a well-formed state.
pub proof fn lemma_run_wf(m: Model, keys: Seq<Key>)
    requires
        m.wf(),
    ensures
        run(m, keys).wf(),
    decreases keys.len(),
{
    if keys.len() > 0 {
        lemma_run_wf(m, keys.drop_last());
        lemma_step_wf(run(m, keys.drop_last()), keys.last());
    }
}

/// After each key of any sequence (moves and deletions among them), the
/// selection lies inside the list shown whenever that list is not empty,
/// and the tab is one of the two.
pub proof fn lemma_selection_stays_in_range(m: Model, keys: Seq<Key>)
    requires
        m.wf(),
    ensures
        forall|i: int|
            0 <= i <= keys.len() ==> {
                let s = #[trigger] run(m, keys.take(i));
                &&& s.tab < 2
                &&& s.active().len() > 0 ==> s.selection < s.active().len()
            },
{
    assert forall|i: int| 0 <= i <= keys.len() implies {
        let s = #[trigger] run(m, keys.take(i));
        &&& s.tab < 2
        &&& s.active().len() > 0 ==> s.selection < s.active().len()
    } by {
        lemma_run_wf(m, keys.take(i));
    }
}

/// Moving an item keeps the number of items over both lists; the item taken
/// from the list shown arrives unchanged at the end of the other list.
pub proof fn lemma_move_item_conserves(m: Model)
    requires
        m.wf(),
    ensures
        move_item(m).todo.len() + move_item(m).done.len() == m.todo.len() + m.done.len(),
        move_item(m).tab == m.tab,
        m.active().len() > 0 ==> {
            let r = move_item(m);
            let o = other_tab(m.tab);
            &&& r.active() == m.active().remove(m.selection as int)
            &&& r.list(o) == m.list(o).push(m.active()[m.selection as int])
        },
{
}

/// Deleting shortens the list shown by exactly one item, or leaves an empty
/// list as it is; the other list is untouched.
pub proof fn lemma_delete_item_shrinks(m: Model)
    requires
        m.wf(),
    ensures
        delete_item(m).tab == m.tab,
        delete_item(m).list(other_tab(m.tab)) == m.list(other_tab(m.tab)),
        m.active().len() > 0 ==> delete_item(m).active().len() == m.active().len() - 1,
        m.active().len() == 0 ==> delete_item(m) == m,
{
}

/// Switching tabs twice shows the tab that was shown before; so does
/// switching back twice.
pub proof fn lemma_tab_switch_twice(m: Model)
    requires
        m.wf(),
    ensures
        next_tab(next_tab(m)).tab == m.tab,
        prev_tab(prev_tab(m)).tab == m.tab,
{
}

/// In input mode no key quits, switches tab, moves the selection or touches
/// the done list: every key does what editing defines, and only Enter
/// changes the todo list.
pub proof fn lemma_input_mode_isolation(m: Model, key: Key)
    requires
        m.input_mode,
    ensures
        step(m, key) == (edit(m, key), Outcome::Continue),
        step(m, key).0.tab == m.tab,
        step(m, key).0.selection == m.selection,
        step(m, key).0.done == m.done,
        key != Key::Enter ==> step(m, key).0.todo == m.todo,
{
}

/// `keys` are the presses of the characters of `text`, in order.
pub open spec fn types_text(keys: Seq<Key>, text: Seq<char>) -> bool {
    &&& keys.len() == text.len()
    &&& forall|i: int| 0 <= i < keys.len() ==> keys[i] == Key::Char(#[trigger] text[i])
}

/// In input mode, typing `text` appends it to the pending text and changes
/// nothing else.
pub proof fn lemma_typing_appends(m: Model, keys: Seq<Key>, text: Seq<char>)
    requires
        m.input_mode,
        types_text(keys, text),
    ensures
        run(m, keys) == (Model { draft: m.draft + text, ..m }),
    decreases keys.len(),
{
    if keys.len() == 0 {
        assert(m.draft + text =~= m.draft);
    } else {
        let n = keys.len() - 1;
        assert(types_text(keys.drop_last(), text.drop_last())) by {
            assert forall|i: int| 0 <= i < n implies keys.drop_last()[i] == Key::Char(
                #[trigger] text.drop_last()[i],
            ) by {
                assert(keys[i] == Key::Char(text[i]));
            }
        }
        lemma_typing_appends(m, keys.drop_last(), text.drop_last());
        assert(keys[n] == Key::Char(text[n]));
        assert((m.draft + text.drop_last()).push(text.last()) =~= m.draft + text);
    }
}

/// Starting input mode, typing `text` and confirming appends exactly `text`
/// to the end of the todo list, whichever tab is shown, and leaves input mode
/// with no pending text; nothing else changes.
pub proof fn lemma_add_round_trip(m: Model, text: Seq<char>, typing: Seq<Key>)
    requires
        m.wf(),
        !m.input_mode,
        types_text(typing, text),
    ensures
        run(m, seq![Key::Char('a')] + typing + seq![Key::Enter]) == (Model {
            todo: m.todo.push(text),
            ..m
        }),
{
    let open = seq![Key::Char('a')];
    lemma_run_append(m, open, typing);
    lemma_run_append(m, open + typing, seq![Key::Enter]);
    assert(open.drop_last() =~= seq![]);
    assert(run(m, open.drop_last()) == m);
    let editing = run(m, open);
    assert(editing == (Model { input_mode: true, draft: seq![], ..m }));
    lemma_typing_appends(editing, typing, text);
    let enter = seq![Key::Enter];
    assert(enter.drop_last() =~= seq![]);
    let done_typing = run(m, open + typing);
    assert(run(done_typing, enter.drop_last()) == done_typing);
    assert(seq![] + text =~= text);
    assert(m.draft =~= seq![]);
}

} // verus!
