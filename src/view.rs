use vstd::prelude::*;
use vstd::string::StringExecFns;
use crate::state::{TodoApp, texts};

verus! {

/// The label of tab `t`.
pub open spec fn tab_label(t: nat) -> Seq<char> {
    if t == 0 {
        "Todo"@
    } else {
        "Done"@
    }
}

/// One line of the list shown: its text, whether it is drawn as done
/// (struck through), and whether it is the selected one (highlighted).
pub struct ItemLine {
    pub text: String,
    pub crossed_out: bool,
    pub highlighted: bool,
}

/// What the front end draws: the tab strip with the tab shown, the list of
/// that tab under its title, and the text box while typing, whose content
/// ends in a cursor mark.
pub struct Screen {
    pub tab_labels: Vec<String>,
    pub active_tab: usize,
    pub title: String,
    pub items: Vec<ItemLine>,
    pub input_box: Option<String>,
}

/// The label of tab `t` as a string.
fn label(t: usize) -> (r: String)
    ensures
        r@ == tab_label(t as nat),
{
    if t == 0 {
        String::from_str("Todo")
    } else {
        String::from_str("Done")
    }
}

/// Projects the state onto the screen; nothing in the state changes.
pub fn project(app: &TodoApp) -> (r: Screen)
    requires
        app.wf(),
    ensures
        r.tab_labels@.len() == 2,
        r.tab_labels@[0]@ == tab_label(0),
        r.tab_labels@[1]@ == tab_label(1),
        r.active_tab as nat == app@.tab,
        r.title@ == tab_label(app@.tab),
        r.items@.len() == app@.active().len(),
        forall|i: int|
            0 <= i < r.items@.len() ==> {
                &&& (#[trigger] r.items@[i]).text@ == app@.active()[i]
                &&& r.items@[i].crossed_out == (app@.tab == 1)
                &&& r.items@[i].highlighted == (i == app@.selection)
            },
        app@.input_mode ==> r.input_box.is_some() && r.input_box.unwrap()@ == app@.draft + "|"@,
        !app@.input_mode ==> r.input_box.is_none(),
{
    let tab = app.active_tab();
    let selection = app.selection();
    let list = app.active_collection();
    let mut items: Vec<ItemLine> = Vec::new();
    let mut i: usize = 0;
    while i < list.len()
        invariant
            i <= list@.len(),
            texts(list@) == app@.active(),
            tab as nat == app@.tab,
            selection as nat == app@.selection,
            items@.len() == i,
            forall|j: int|
                0 <= j < i ==> {
                    &&& (#[trigger] items@[j]).text@ == app@.active()[j]
                    &&& items@[j].crossed_out == (app@.tab == 1)
                    &&& items@[j].highlighted == (j == app@.selection)
                },
        decreases list@.len() - i,
    {
        let text = list[i].clone();
        items.push(ItemLine { text, crossed_out: tab == 1, highlighted: i == selection });
        i += 1;
    }
    let input_box = if app.is_input_mode() {
        let mut content = app.draft().clone();
        content.append("|");
        Some(content)
    } else {
        None
    };
    Screen { tab_labels: vec![label(0), label(1)], active_tab: tab, title: label(tab), items, input_box }
}

} // verus!
