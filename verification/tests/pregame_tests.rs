use traffic_replay::pregame::{
    splash_choices, splash_screen, title_screen, SplashChoice, Transition,
};

const ALL: [SplashChoice; 7] = [
    SplashChoice::Sandbox,
    SplashChoice::Challenge,
    SplashChoice::AbTest,
    SplashChoice::Tutorial,
    SplashChoice::Mission,
    SplashChoice::About,
    SplashChoice::Quit,
];

#[test]
fn menu_offers_developers_more() {
    assert_eq!(splash_choices(true), ALL.to_vec());
    assert_eq!(
        splash_choices(false),
        vec![SplashChoice::Sandbox, SplashChoice::Challenge, SplashChoice::About, SplashChoice::Quit]
    );
}

#[test]
fn menu_entries_have_words_and_keys() {
    let labels: Vec<&str> = ALL.iter().map(|c| c.label()).collect();
    assert_eq!(
        labels,
        vec![
            "Sandbox mode",
            "Challenge mode",
            "A/B Test Mode (internal/unfinished)",
            "Tutorial (unfinished)",
            "Internal developer tools",
            "About",
            "Quit",
        ]
    );
    let keys: Vec<Option<char>> = ALL.iter().map(|c| c.hotkey()).collect();
    assert_eq!(keys, vec![Some('S'), Some('C'), Some('A'), Some('T'), Some('M'), None, None]);
}

#[test]
fn menu_entries_are_found_by_their_words() {
    for choice in ALL {
        assert_eq!(SplashChoice::with_label(choice.label()), Some(choice));
    }
    assert_eq!(SplashChoice::with_label(""), None);
    assert_eq!(SplashChoice::with_label("quit"), None);
    assert_eq!(SplashChoice::with_label("Sandbox mode "), None);
}

#[test]
fn menu_entries_lead_somewhere() {
    let transitions: Vec<Transition> = ALL.iter().map(|c| c.transition()).collect();
    assert_eq!(
        transitions,
        vec![
            Transition::PushSandbox,
            Transition::PushChallengesPicker,
            Transition::PushAbTestPicker,
            Transition::PushTutorial,
            Transition::PushMissionEdit,
            Transition::PushAbout,
            Transition::Pop,
        ]
    );
}

#[test]
fn menu_follows_the_entry_picked() {
    for choice in ALL {
        assert_eq!(splash_screen(Some(choice), false), choice.transition());
        assert_eq!(splash_screen(Some(choice), true), choice.transition());
    }
    assert_eq!(splash_screen(None, true), Transition::Pop);
    assert_eq!(splash_screen(None, false), Transition::Keep);
}

#[test]
fn title_screen_waits_for_the_click() {
    assert_eq!(title_screen(false), Transition::KeepWithAnimation);
    assert_eq!(title_screen(true), Transition::ReplaceWithSplashScreen);
}
