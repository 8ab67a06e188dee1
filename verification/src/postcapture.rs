use vstd::prelude::*;
use vstd::string::*;

use crate::text::str_eq;

verus! {

/// An action run on a screenshot once it has been taken.
#[derive(Clone, Copy, Debug, PartialEq, Eq, Structural)]
pub enum PostCaptureAction {
    /// Saves the screenshot to the disk.
    SaveToDisk,
    /// Copies the picture to the clipboard.
    CopyToClipboard,
}

/// The identifier of an action in the settings.
pub open spec fn action_id(action: PostCaptureAction) -> Seq<char> {
    match action {
        PostCaptureAction::SaveToDisk => seq!['s', 'a', 'v', 'e', '-', 't', 'o', '-', 'd', 'i', 's', 'k'],
        PostCaptureAction::CopyToClipboard => seq![
            'c', 'o', 'p', 'y', '-', 't', 'o', '-', 'c', 'l', 'i', 'p', 'b', 'o', 'a', 'r', 'd'
        ],
    }
}

/// Every action there is, in the order they are offered.
pub open spec fn all_actions() -> Seq<PostCaptureAction> {
    seq![PostCaptureAction::SaveToDisk, PostCaptureAction::CopyToClipboard]
}

/// The action with the identifier `id`, if there is one.
pub open spec fn action_with_id(id: Seq<char>) -> Option<PostCaptureAction> {
    if id == action_id(PostCaptureAction::SaveToDisk) {
        Some(PostCaptureAction::SaveToDisk)
    } else if id == action_id(PostCaptureAction::CopyToClipboard) {
        Some(PostCaptureAction::CopyToClipboard)
    } else {
        None
    }
}

/// The actions that `names` name, in their order; names of no action are passed over.
pub open spec fn actions_named(names: Seq<String>) -> Seq<PostCaptureAction>
    decreases names.len(),
{
    if names.len() == 0 {
        Seq::empty()
    } else {
        let before = actions_named(names.drop_last());
        match action_with_id(names.last()@) {
            Some(action) => before.push(action),
            None => before,
        }
    }
}

impl PostCaptureAction {
    /// The identifier of the action, which the settings use.
    pub fn id(&self) -> (id: String)
        ensures
            id@ == action_id(*self),
    {
        proof {
            reveal_strlit("save-to-disk");
            reveal_strlit("copy-to-clipboard");
        }
        match self {
            PostCaptureAction::SaveToDisk => String::from_str("save-to-disk"),
            PostCaptureAction::CopyToClipboard => String::from_str("copy-to-clipboard"),
        }
    }

    /// The name of the action.
    pub fn name(&self) -> (name: String)
        ensures
            name@ == match *self {
                PostCaptureAction::SaveToDisk => "Save to disk"@,
                PostCaptureAction::CopyToClipboard => "Copy to clipboard"@,
            },
    {
        match self {
            PostCaptureAction::SaveToDisk => String::from_str("Save to disk"),
            PostCaptureAction::CopyToClipboard => String::from_str("Copy to clipboard"),
        }
    }

    /// A short description of the action.
    pub fn description(&self) -> (description: String)
        ensures
            description@ == match *self {
                PostCaptureAction::SaveToDisk => "Saves the screenshot to the disk"@,
                PostCaptureAction::CopyToClipboard => "Copies the picture to the clipboard"@,
            },
    {
        match self {
            PostCaptureAction::SaveToDisk => String::from_str("Saves the screenshot to the disk"),
            PostCaptureAction::CopyToClipboard => String::from_str(
                "Copies the picture to the clipboard",
            ),
        }
    }
}

/// Every available action.
pub fn get_postcapture_actions() -> (actions: Vec<PostCaptureAction>)
    ensures
        actions@ == all_actions(),
{
    let actions = vec![PostCaptureAction::SaveToDisk, PostCaptureAction::CopyToClipboard];
    assert(actions@ =~= all_actions());
    actions
}

/// The action with the identifier `id`, looked up among the available ones.
fn find_action(actions: &Vec<PostCaptureAction>, id: &str) -> (action: Option<PostCaptureAction>)
    requires
        actions@ == all_actions(),
    ensures
        action == action_with_id(id@),
{
    let mut i: usize = 0;
    while i < actions.len()
        invariant
            actions@ == all_actions(),
            i <= actions@.len(),
            forall|j: int| 0 <= j < i ==> action_id(#[trigger] actions@[j]) != id@,
        decreases actions.len() - i,
    {
        let action = actions[i];
        if str_eq(action.id().as_str(), id) {
            return Some(action);
        }
        i = i + 1;
    }
    assert(action_id(actions@[0]) != id@);
    assert(action_id(actions@[1]) != id@);
    None
}

/// The actions to run, in the order the settings name them. Names of no available
/// action are passed over.
pub fn get_actions_from_settings(action_names: &Vec<String>) -> (actions: Vec<PostCaptureAction>)
    ensures
        actions@ == actions_named(action_names@),
{
    let available = get_postcapture_actions();
    let mut actions: Vec<PostCaptureAction> = Vec::new();
    let mut i: usize = 0;
    while i < action_names.len()
        invariant
            available@ == all_actions(),
            i <= action_names@.len(),
            actions@ == actions_named(action_names@.subrange(0, i as int)),
        decreases action_names.len() - i,
    {
        proof {
            assert(action_names@.subrange(0, i + 1).drop_last() =~= action_names@.subrange(
                0,
                i as int,
            ));
        }
        if let Some(action) = find_action(&available, action_names[i].as_str()) {
            actions.push(action);
        }
        i = i + 1;
    }
    assert(action_names@.subrange(0, action_names@.len() as int) =~= action_names@);
    actions
}

/// Every action is found again by its identifier, so that the settings name each action
/// unambiguously.
pub proof fn lemma_action_found_by_id(action: PostCaptureAction)
    ensures
        action_with_id(action_id(action)) == Some(action),
{
    assert(action_id(PostCaptureAction::SaveToDisk).len() != action_id(
        PostCaptureAction::CopyToClipboard,
    ).len());
}

} // verus!
