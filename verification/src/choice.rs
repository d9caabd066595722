use vstd::prelude::*;

use crate::outcome::ChoiceOutcome;

verus! {

/// The reserved label that unwinds one menu level.
pub open spec fn back_label() -> Seq<char> {
    "Back"@
}

/// The reserved label that terminates the whole navigation.
pub open spec fn exit_label() -> Seq<char> {
    "Exit"@
}

/// The option list shown for a selection prompt: the caller's labels in
/// order, followed by the two reserved control entries.
pub fn build_options(labels: &Vec<String>) -> (opts: Vec<String>)
    ensures
        opts@.len() == labels@.len() + 2,
        forall|i: int| 0 <= i < labels@.len() ==> opts@[i]@ == labels@[i]@,
        opts@[labels@.len() as int]@ == back_label(),
        opts@[labels@.len() as int + 1]@ == exit_label(),
{
    let mut opts: Vec<String> = Vec::new();
    let mut i: usize = 0;
    while i < labels.len()
        invariant
            i <= labels@.len(),
            opts@.len() == i,
            forall|j: int| 0 <= j < i ==> opts@[j]@ == labels@[j]@,
        decreases labels@.len() - i,
    {
        opts.push(labels[i].clone());
        i = i + 1;
    }
    opts.push(String::from_str("Back"));
    opts.push(String::from_str("Exit"));
    opts
}

/// Resolves the prompter's answer to a selection over `labels` plus the
/// reserved entries. Index `i` below the label count selects that label;
/// the two indices past it are `Back` and `Exit`; cancelling the prompt
/// unwinds like `Back`. A reserved index never yields `Selected`.
pub fn resolve_choice(labels: &Vec<String>, selection: Option<usize>) -> (r: ChoiceOutcome)
    requires
        selection matches Some(i) ==> i < labels@.len() + 2,
    ensures
        (match selection {
            Some(i) => {
                &&& i < labels@.len() ==> (match r {
                    ChoiceOutcome::Selected(s) => s@ == labels@[i as int]@,
                    _ => false,
                })
                &&& i == labels@.len() ==> r is Back
                &&& i == labels@.len() + 1 ==> r is Exit
            },
            None => r is Back,
        }),
{
    match selection {
        None => ChoiceOutcome::Back,
        Some(i) => {
            if i < labels.len() {
                ChoiceOutcome::Selected(labels[i].clone())
            } else if i == labels.len() {
                ChoiceOutcome::Back
            } else {
                ChoiceOutcome::Exit
            }
        },
    }
}

} // verus!
