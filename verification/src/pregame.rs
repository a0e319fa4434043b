//! What the title screen and the menu behind it decide.

use crate::text::same_text;
use vstd::prelude::*;

verus! {

/// An entry of the menu behind the title screen.
#[derive(Clone, Copy, PartialEq, Eq, Structural, Debug)]
pub enum SplashChoice {
    Sandbox,
    Challenge,
    AbTest,
    Tutorial,
    Mission,
    About,
    Quit,
}

/// What the host is to do with the stack of screens.
#[derive(Clone, Copy, PartialEq, Eq, Structural, Debug)]
pub enum Transition {
    /// Stay, and wait for input.
    Keep,
    /// Stay, and come back with the next animation frame.
    KeepWithAnimation,
    /// Leave this screen.
    Pop,
    PushSandbox,
    PushChallengesPicker,
    PushAbTestPicker,
    PushTutorial,
    PushMissionEdit,
    PushAbout,
    ReplaceWithSplashScreen,
}

/// The entries of the menu; those for developers only where `dev` is set.
pub open spec fn choices_offered(dev: bool) -> Seq<SplashChoice> {
    if dev {
        seq![
            SplashChoice::Sandbox,
            SplashChoice::Challenge,
            SplashChoice::AbTest,
            SplashChoice::Tutorial,
            SplashChoice::Mission,
            SplashChoice::About,
            SplashChoice::Quit,
        ]
    } else {
        seq![SplashChoice::Sandbox, SplashChoice::Challenge, SplashChoice::About, SplashChoice::Quit]
    }
}

/// The words of an entry.
pub open spec fn label_of(choice: SplashChoice) -> Seq<char> {
    match choice {
        SplashChoice::Sandbox => "Sandbox mode"@,
        SplashChoice::Challenge => "Challenge mode"@,
        SplashChoice::AbTest => "A/B Test Mode (internal/unfinished)"@,
        SplashChoice::Tutorial => "Tutorial (unfinished)"@,
        SplashChoice::Mission => "Internal developer tools"@,
        SplashChoice::About => "About"@,
        SplashChoice::Quit => "Quit"@,
    }
}

/// The key that picks an entry, where it has one.
pub open spec fn hotkey_of(choice: SplashChoice) -> Option<char> {
    match choice {
        SplashChoice::Sandbox => Some('S'),
        SplashChoice::Challenge => Some('C'),
        SplashChoice::AbTest => Some('A'),
        SplashChoice::Tutorial => Some('T'),
        SplashChoice::Mission => Some('M'),
        SplashChoice::About => None,
        SplashChoice::Quit => None,
    }
}

/// Where an entry leads.
pub open spec fn transition_of(choice: SplashChoice) -> Transition {
    match choice {
        SplashChoice::Sandbox => Transition::PushSandbox,
        SplashChoice::Challenge => Transition::PushChallengesPicker,
        SplashChoice::AbTest => Transition::PushAbTestPicker,
        SplashChoice::Tutorial => Transition::PushTutorial,
        SplashChoice::Mission => Transition::PushMissionEdit,
        SplashChoice::About => Transition::PushAbout,
        SplashChoice::Quit => Transition::Pop,
    }
}

/// The entry with the given words: the first in the order of the menu.
pub open spec fn choice_labelled(label: Seq<char>) -> Option<SplashChoice> {
    if label == label_of(SplashChoice::Sandbox) {
        Some(SplashChoice::Sandbox)
    } else if label == label_of(SplashChoice::Challenge) {
        Some(SplashChoice::Challenge)
    } else if label == label_of(SplashChoice::AbTest) {
        Some(SplashChoice::AbTest)
    } else if label == label_of(SplashChoice::Tutorial) {
        Some(SplashChoice::Tutorial)
    } else if label == label_of(SplashChoice::Mission) {
        Some(SplashChoice::Mission)
    } else if label == label_of(SplashChoice::About) {
        Some(SplashChoice::About)
    } else if label == label_of(SplashChoice::Quit) {
        Some(SplashChoice::Quit)
    } else {
        None
    }
}

/// What the menu does in a frame.
pub open spec fn splash_outcome(chosen: Option<SplashChoice>, aborted: bool) -> Transition {
    match chosen {
        Some(choice) => transition_of(choice),
        None => if aborted {
            Transition::Pop
        } else {
            Transition::Keep
        },
    }
}

/// No two entries have the same words: each is found again by its own.
pub proof fn lemma_labels_tell_choices_apart(choice: SplashChoice)
    ensures
        choice_labelled(label_of(choice)) == Some(choice),
{
    reveal_strlit("Sandbox mode");
    reveal_strlit("Challenge mode");
    reveal_strlit("A/B Test Mode (internal/unfinished)");
    reveal_strlit("Tutorial (unfinished)");
    reveal_strlit("Internal developer tools");
    reveal_strlit("About");
    reveal_strlit("Quit");
    assert("Sandbox mode"@.len() == 12);
    assert("Challenge mode"@.len() == 14);
    assert("A/B Test Mode (internal/unfinished)"@.len() == 35);
    assert("Tutorial (unfinished)"@.len() == 21);
    assert("Internal developer tools"@.len() == 24);
    assert("About"@.len() == 5);
    assert("Quit"@.len() == 4);
}

/// Users who are no developers are offered what developers are, less the
/// three entries that are for developers, in the same order.
pub proof fn lemma_developers_see_more()
    ensures
        choices_offered(false) == choices_offered(true).filter(
            |c: SplashChoice|
                c != SplashChoice::AbTest && c != SplashChoice::Tutorial && c
                    != SplashChoice::Mission,
        ),
{
    let keep = |c: SplashChoice|
        c != SplashChoice::AbTest && c != SplashChoice::Tutorial && c != SplashChoice::Mission;
    let all = choices_offered(true);
    crate::seqs::lemma_filter_of_none(all, keep);
    crate::seqs::lemma_filter_one_more(all, 0, keep);
    crate::seqs::lemma_filter_one_more(all, 1, keep);
    crate::seqs::lemma_filter_one_more(all, 2, keep);
    crate::seqs::lemma_filter_one_more(all, 3, keep);
    crate::seqs::lemma_filter_one_more(all, 4, keep);
    crate::seqs::lemma_filter_one_more(all, 5, keep);
    crate::seqs::lemma_filter_one_more(all, 6, keep);
    crate::seqs::lemma_take_all(all);
    assert(all.filter(keep) =~= choices_offered(false));
}

impl SplashChoice {
    /// The words of the entry.
    pub fn label(&self) -> (label: &'static str)
        ensures
            label@ == label_of(*self),
    {
        match self {
            SplashChoice::Sandbox => "Sandbox mode",
            SplashChoice::Challenge => "Challenge mode",
            SplashChoice::AbTest => "A/B Test Mode (internal/unfinished)",
            SplashChoice::Tutorial => "Tutorial (unfinished)",
            SplashChoice::Mission => "Internal developer tools",
            SplashChoice::About => "About",
            SplashChoice::Quit => "Quit",
        }
    }

    /// The key that picks the entry, where it has one.
    pub fn hotkey(&self) -> (key: Option<char>)
        ensures
            key == hotkey_of(*self),
    {
        match self {
            SplashChoice::Sandbox => Some('S'),
            SplashChoice::Challenge => Some('C'),
            SplashChoice::AbTest => Some('A'),
            SplashChoice::Tutorial => Some('T'),
            SplashChoice::Mission => Some('M'),
            SplashChoice::About => None,
            SplashChoice::Quit => None,
        }
    }

    /// Where the entry leads.
    pub fn transition(&self) -> (transition: Transition)
        ensures
            transition == transition_of(*self),
    {
        match self {
            SplashChoice::Sandbox => Transition::PushSandbox,
            SplashChoice::Challenge => Transition::PushChallengesPicker,
            SplashChoice::AbTest => Transition::PushAbTestPicker,
            SplashChoice::Tutorial => Transition::PushTutorial,
            SplashChoice::Mission => Transition::PushMissionEdit,
            SplashChoice::About => Transition::PushAbout,
            SplashChoice::Quit => Transition::Pop,
        }
    }

    /// The entry with the given words, where there is one.
    pub fn with_label(label: &str) -> (choice: Option<SplashChoice>)
        ensures
            choice == choice_labelled(label@),
    {
        if same_text(label, SplashChoice::Sandbox.label()) {
            Some(SplashChoice::Sandbox)
        } else if same_text(label, SplashChoice::Challenge.label()) {
            Some(SplashChoice::Challenge)
        } else if same_text(label, SplashChoice::AbTest.label()) {
            Some(SplashChoice::AbTest)
        } else if same_text(label, SplashChoice::Tutorial.label()) {
            Some(SplashChoice::Tutorial)
        } else if same_text(label, SplashChoice::Mission.label()) {
            Some(SplashChoice::Mission)
        } else if same_text(label, SplashChoice::About.label()) {
            Some(SplashChoice::About)
        } else if same_text(label, SplashChoice::Quit.label()) {
            Some(SplashChoice::Quit)
        } else {
            None
        }
    }
}

/// The entries of the menu, in their order; those for developers only where
/// `dev` is set.
pub fn splash_choices(dev: bool) -> (choices: Vec<SplashChoice>)
    ensures
        choices@ == choices_offered(dev),
{
    let mut choices: Vec<SplashChoice> = Vec::new();
    choices.push(SplashChoice::Sandbox);
    choices.push(SplashChoice::Challenge);
    if dev {
        choices.push(SplashChoice::AbTest);
        choices.push(SplashChoice::Tutorial);
        choices.push(SplashChoice::Mission);
    }
    choices.push(SplashChoice::About);
    choices.push(SplashChoice::Quit);
    assert(choices@ =~= choices_offered(dev));
    choices
}

/// One frame of the menu: where the user has picked an entry, that is where
/// it goes; where the user has given up, the menu is left; otherwise it
/// stays.
pub fn splash_screen(chosen: Option<SplashChoice>, aborted: bool) -> (transition: Transition)
    ensures
        transition == splash_outcome(chosen, aborted),
{
    match chosen {
        Some(choice) => choice.transition(),
        None => if aborted {
            Transition::Pop
        } else {
            Transition::Keep
        },
    }
}

/// One frame of the title screen: a click on the button leads to the menu;
/// until then the screen goes on moving.
pub fn title_screen(play_clicked: bool) -> (transition: Transition)
    ensures
        transition == if play_clicked {
            Transition::ReplaceWithSplashScreen
        } else {
            Transition::KeepWithAnimation
        },
{
    if play_clicked {
        Transition::ReplaceWithSplashScreen
    } else {
        Transition::KeepWithAnimation
    }
}

} // verus!
