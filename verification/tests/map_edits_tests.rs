use traffic_replay::map_edits::{edit_choices, manage_edits, EditChoice, EditsAction};

#[test]
fn unnamed_edits_are_saved_anew() {
    assert_eq!(edit_choices("no_edits"), vec![EditChoice::SaveNew, EditChoice::Load]);
}

#[test]
fn named_edits_are_saved_under_their_name() {
    assert_eq!(edit_choices("bike lanes"), vec![EditChoice::SaveExisting, EditChoice::Load]);
    assert_eq!(edit_choices(""), vec![EditChoice::SaveExisting, EditChoice::Load]);
    assert_eq!(edit_choices("no_edits "), vec![EditChoice::SaveExisting, EditChoice::Load]);
}

#[test]
fn edit_choices_have_words() {
    assert_eq!(EditChoice::SaveNew.label("no_edits"), "Save these new map edits");
    assert_eq!(EditChoice::SaveExisting.label("bike lanes"), "Save bike lanes");
    assert_eq!(EditChoice::SaveExisting.label(""), "Save ");
    assert_eq!(EditChoice::Load.label("bike lanes"), "Load other map edits");
}

#[test]
fn edit_choices_are_found_by_their_words() {
    for name in ["no_edits", "bike lanes", ""] {
        for choice in edit_choices(name) {
            let label = choice.label(name);
            assert_eq!(EditChoice::with_label(&label, name), Some(choice));
        }
    }
    assert_eq!(EditChoice::with_label("Save bike lanes", "bus lanes"), None);
    assert_eq!(EditChoice::with_label("Save", "bike lanes"), None);
    assert_eq!(
        EditChoice::with_label("Save these new map edits", "bike lanes"),
        Some(EditChoice::SaveNew)
    );
}

#[test]
fn saving_anew_goes_before_saving_where_they_read_alike() {
    let name = "these new map edits";
    assert_eq!(EditChoice::SaveExisting.label(name), EditChoice::SaveNew.label(name));
    assert_eq!(
        EditChoice::with_label(&EditChoice::SaveExisting.label(name), name),
        Some(EditChoice::SaveNew)
    );
}

#[test]
fn saving_anew_names_the_edits() {
    let mut name = "no_edits".to_string();
    assert_eq!(manage_edits(&mut name, EditChoice::SaveNew, None), None);
    assert_eq!(name, "no_edits");
    assert_eq!(
        manage_edits(&mut name, EditChoice::SaveNew, Some("bike lanes".to_string())),
        Some(EditsAction::SaveAs("bike lanes".to_string()))
    );
    assert_eq!(name, "bike lanes");
}

#[test]
fn saving_needs_no_name() {
    let mut name = "bike lanes".to_string();
    assert_eq!(manage_edits(&mut name, EditChoice::SaveExisting, None), Some(EditsAction::Save));
    assert_eq!(
        manage_edits(&mut name, EditChoice::SaveExisting, Some("other".to_string())),
        Some(EditsAction::Save)
    );
    assert_eq!(name, "bike lanes");
}

#[test]
fn loading_leaves_the_edits_at_hand() {
    let mut name = "bike lanes".to_string();
    assert_eq!(manage_edits(&mut name, EditChoice::Load, None), None);
    assert_eq!(
        manage_edits(&mut name, EditChoice::Load, Some("bus lanes".to_string())),
        Some(EditsAction::Reload("bus lanes".to_string()))
    );
    assert_eq!(name, "bike lanes");
}
