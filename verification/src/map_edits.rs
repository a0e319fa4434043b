//! What the manager of map edits decides: what the user can do with the
//! edits at hand, and what follows from the user's answers.

use crate::text::same_text;
use vstd::prelude::*;

verus! {

/// What the user can do with the map edits.
#[derive(Clone, Copy, PartialEq, Eq, Structural, Debug)]
pub enum EditChoice {
    /// Save edits that have no name yet.
    SaveNew,
    /// Save the edits under the name they have.
    SaveExisting,
    /// Load other edits.
    Load,
}

/// What the host is to do once the user has answered.
#[derive(PartialEq, Eq, Debug)]
pub enum EditsAction {
    /// Save the edits under this new name.
    SaveAs(String),
    /// Save the edits under their name.
    Save,
    /// Load the edits of this name, and everything that depends on them.
    Reload(String),
}

/// The name of edits that have not been saved.
pub open spec fn unnamed() -> Seq<char> {
    "no_edits"@
}

/// What is offered for edits of the given name.
pub open spec fn choices_for(edits_name: Seq<char>) -> Seq<EditChoice> {
    if edits_name == unnamed() {
        seq![EditChoice::SaveNew, EditChoice::Load]
    } else {
        seq![EditChoice::SaveExisting, EditChoice::Load]
    }
}

/// The words in which a choice is offered.
pub open spec fn choice_text(choice: EditChoice, edits_name: Seq<char>) -> Seq<char> {
    match choice {
        EditChoice::SaveNew => "Save these new map edits"@,
        EditChoice::SaveExisting => "Save "@ + edits_name,
        EditChoice::Load => "Load other map edits"@,
    }
}

/// The choice that the given words stand for. Where the name of the edits
/// makes two choices read alike, saving anew goes before saving, and saving
/// before loading.
pub open spec fn choice_worded(label: Seq<char>, edits_name: Seq<char>) -> Option<EditChoice> {
    if label == choice_text(EditChoice::SaveNew, edits_name) {
        Some(EditChoice::SaveNew)
    } else if label == choice_text(EditChoice::SaveExisting, edits_name) {
        Some(EditChoice::SaveExisting)
    } else if label == choice_text(EditChoice::Load, edits_name) {
        Some(EditChoice::Load)
    } else {
        None
    }
}

/// Whether a choice needs a name from the user before anything is done.
pub open spec fn needs_name(choice: EditChoice) -> bool {
    choice != EditChoice::SaveExisting
}

/// Every choice that is offered is found again by its words, unless the
/// name of the edits makes saving them read like saving anew.
pub proof fn lemma_offered_choice_is_found(edits_name: Seq<char>, i: int)
    requires
        0 <= i < choices_for(edits_name).len(),
        choice_text(EditChoice::SaveExisting, edits_name) != choice_text(
            EditChoice::SaveNew,
            edits_name,
        ),
    ensures
        choice_worded(choice_text(choices_for(edits_name)[i], edits_name), edits_name) == Some(
            choices_for(edits_name)[i],
        ),
{
    reveal_strlit("Save these new map edits");
    reveal_strlit("Save ");
    reveal_strlit("Load other map edits");
    let save_new = "Save these new map edits"@;
    let load = "Load other map edits"@;
    let save_existing = "Save "@ + edits_name;
    assert(save_new[0] == 'S');
    assert(load[0] == 'L');
    assert(save_existing[0] == 'S');
}

impl EditChoice {
    /// The words in which the choice is offered, for edits of the given name.
    pub fn label(&self, edits_name: &str) -> (label: String)
        ensures
            label@ == choice_text(*self, edits_name@),
    {
        match self {
            EditChoice::SaveNew => String::from_str("Save these new map edits"),
            EditChoice::SaveExisting => {
                let mut label = String::from_str("Save ");
                label.append(edits_name);
                label
            },
            EditChoice::Load => String::from_str("Load other map edits"),
        }
    }

    /// The choice that the given words stand for, for edits of the given
    /// name.
    pub fn with_label(label: &str, edits_name: &str) -> (choice: Option<EditChoice>)
        ensures
            choice == choice_worded(label@, edits_name@),
    {
        let save_new = EditChoice::SaveNew.label(edits_name);
        let save_existing = EditChoice::SaveExisting.label(edits_name);
        let load = EditChoice::Load.label(edits_name);
        if same_text(label, save_new.as_str()) {
            Some(EditChoice::SaveNew)
        } else if same_text(label, save_existing.as_str()) {
            Some(EditChoice::SaveExisting)
        } else if same_text(label, load.as_str()) {
            Some(EditChoice::Load)
        } else {
            None
        }
    }
}

/// What is offered for edits of the given name: to save them, anew where
/// they have no name yet, or to load others.
pub fn edit_choices(edits_name: &str) -> (choices: Vec<EditChoice>)
    ensures
        choices@ == choices_for(edits_name@),
{
    let mut choices: Vec<EditChoice> = Vec::new();
    if same_text(edits_name, "no_edits") {
        choices.push(EditChoice::SaveNew);
    } else {
        choices.push(EditChoice::SaveExisting);
    }
    choices.push(EditChoice::Load);
    assert(choices@ =~= choices_for(edits_name@));
    choices
}

/// What follows from the user's choice. `answer` is the name that the user
/// has given, for the edits to save anew or for those to load, once there is
/// one. Nothing is done while a name is still to come. Saving anew gives the
/// edits at hand the new name; loading leaves them as they are.
pub fn manage_edits(edits_name: &mut String, choice: EditChoice, answer: Option<String>) -> (done:
    Option<EditsAction>)
    ensures
        done is None <==> needs_name(choice) && answer is None,
        choice == EditChoice::SaveExisting ==> done == Some(EditsAction::Save) && final(edits_name)@
            == old(edits_name)@,
        choice == EditChoice::SaveNew && answer is Some ==> {
            &&& done matches Some(EditsAction::SaveAs(name))
            &&& name@ == (answer->0)@
            &&& final(edits_name)@ == (answer->0)@
        },
        choice == EditChoice::Load && answer is Some ==> {
            &&& done matches Some(EditsAction::Reload(name))
            &&& name@ == (answer->0)@
            &&& final(edits_name)@ == old(edits_name)@
        },
        answer is None ==> final(edits_name)@ == old(edits_name)@,
{
    match choice {
        EditChoice::SaveNew => match answer {
            Some(name) => {
                *edits_name = name.clone();
                Some(EditsAction::SaveAs(name))
            },
            None => None,
        },
        EditChoice::SaveExisting => Some(EditsAction::Save),
        EditChoice::Load => match answer {
            Some(load_name) => Some(EditsAction::Reload(load_name)),
            None => None,
        },
    }
}

} // verus!
