//! What becomes of a progress bar when it finishes.

use std::borrow::Cow;

use vstd::prelude::*;

use crate::text::{chars, copy_text};

verus! {

/// What a [`ProgressFinish`] says, with its message by its characters.
pub enum FinishView {
    AndLeave,
    WithMessage(Seq<char>),
    AndClear,
    Abandon,
    AbandonWithMessage(Seq<char>),
}

/// Behavior of a progress bar when it is finished
///
/// It comes to bear when a bar goes out of use and has not been finished before.
#[derive(Debug)]
pub enum ProgressFinish {
    /// Finishes the progress bar and leaves the current message
    AndLeave,
    /// Finishes the progress bar and sets a message
    WithMessage(Cow<'static, str>),
    /// Finishes the progress bar and completely clears it (this is the default)
    AndClear,
    /// Finishes the progress bar and leaves the current message and progress
    Abandon,
    /// Finishes the progress bar and sets a message, and leaves the current progress
    AbandonWithMessage(Cow<'static, str>),
}

impl View for ProgressFinish {
    type V = FinishView;

    open spec fn view(&self) -> FinishView {
        match self {
            ProgressFinish::AndLeave => FinishView::AndLeave,
            ProgressFinish::WithMessage(msg) => FinishView::WithMessage(chars(*msg)),
            ProgressFinish::AndClear => FinishView::AndClear,
            ProgressFinish::Abandon => FinishView::Abandon,
            ProgressFinish::AbandonWithMessage(msg) => FinishView::AbandonWithMessage(chars(*msg)),
        }
    }
}

impl Clone for ProgressFinish {
    fn clone(&self) -> (copy: Self)
        ensures
            copy@ == self@,
    {
        match self {
            ProgressFinish::AndLeave => ProgressFinish::AndLeave,
            ProgressFinish::WithMessage(msg) => ProgressFinish::WithMessage(copy_text(msg)),
            ProgressFinish::AndClear => ProgressFinish::AndClear,
            ProgressFinish::Abandon => ProgressFinish::Abandon,
            ProgressFinish::AbandonWithMessage(msg) => ProgressFinish::AbandonWithMessage(
                copy_text(msg),
            ),
        }
    }
}

impl Default for ProgressFinish {
    fn default() -> (finish: Self)
        ensures
            finish@ == FinishView::AndClear,
    {
        ProgressFinish::AndClear
    }
}

/// The view of a finish tells its kinds apart and shows its message.
pub proof fn finish_view_shows_finish(finish: ProgressFinish)
    ensures
        finish is AndLeave <==> finish@ is AndLeave,
        finish is AndClear <==> finish@ is AndClear,
        finish is Abandon <==> finish@ is Abandon,
        finish matches ProgressFinish::WithMessage(msg) ==> finish@ == FinishView::WithMessage(
            chars(msg),
        ),
        finish matches ProgressFinish::AbandonWithMessage(msg) ==> finish@
            == FinishView::AbandonWithMessage(chars(msg)),
{
}

} // verus!
