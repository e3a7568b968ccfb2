//! Modal-prompt button bookkeeping.
//!
//! The native task dialog identifies buttons by an id of the dialog's own.
//! A cancel button keeps the native cancel id, so that dismissing the
//! dialog counts as pressing it; every other button gets an id derived from
//! its position.  When the dialog returns an id, the zero-based index of
//! the pressed button is recovered by searching the same mapping.

use vstd::prelude::*;

verus! {

/// The native dialog's own id for a cancel button.
pub const IDCANCEL: i32 = 2;

#[derive(Clone, Copy, Debug, PartialEq, Eq, Structural)]
pub enum PromptLevel {
    Info,
    Warning,
    Critical,
}

/// One button of a prompt: its label and whether it is the cancel button.
#[derive(Clone, Debug, PartialEq, Eq)]
pub struct PromptButton {
    pub label: String,
    pub is_cancel: bool,
}

/// The dialog id a button at `index` gets: the native cancel id for a
/// cancel button, else an id offset well below any native one.
pub open spec fn spec_button_id(is_cancel: bool, index: int) -> int {
    if is_cancel {
        IDCANCEL as int
    } else {
        index - 100
    }
}

/// The dialog ids for a button row, in order.
pub fn prompt_button_ids(answers: &Vec<PromptButton>) -> (ids: Vec<i32>)
    requires
        answers.len() <= i32::MAX,
    ensures
        ids.len() == answers.len(),
        forall|i: int|
            0 <= i < answers.len() ==> ids@[i] == spec_button_id(answers@[i].is_cancel, i),
{
    let mut ids: Vec<i32> = Vec::new();
    let mut idx: usize = 0;
    while idx < answers.len()
        invariant
            idx <= answers.len(),
            answers.len() <= i32::MAX,
            ids.len() == idx,
            forall|i: int| 0 <= i < idx ==> ids@[i] == spec_button_id(answers@[i].is_cancel, i),
        decreases answers.len() - idx,
    {
        let id: i32 = if answers[idx].is_cancel {
            IDCANCEL
        } else {
            idx as i32 - 100
        };
        ids.push(id);
        idx = idx + 1;
    }
    ids
}

/// The zero-based index of the button whose dialog id the dialog returned:
/// the first position holding `result_id`, or nothing if no button has it
/// (the dialog failed or returned an id that was never handed out).
pub fn clicked_button_index(ids: &Vec<i32>, result_id: i32) -> (found: Option<usize>)
    ensures
        found matches Some(i) ==> i < ids.len() && ids@[i as int] == result_id && (forall|j: int|
            0 <= j < i ==> ids@[j] != result_id),
        found is None ==> forall|j: int| 0 <= j < ids.len() ==> ids@[j] != result_id,
{
    let mut idx: usize = 0;
    while idx < ids.len()
        invariant
            idx <= ids.len(),
            forall|j: int| 0 <= j < idx ==> ids@[j] != result_id,
        decreases ids.len() - idx,
    {
        if ids[idx] == result_id {
            return Some(idx);
        }
        idx = idx + 1;
    }
    None
}

} // verus!
