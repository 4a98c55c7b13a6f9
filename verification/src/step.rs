//! What a step function hands back.

use vstd::prelude::*;

use crate::notice::Notice;

verus! {

/// The outcome of a step: the state that follows, the lines to print, in order, and then
/// the command to carry out, if there is one.
pub struct Step<S, C> {
    pub state: S,
    pub notices: Vec<Notice>,
    pub command: Option<C>,
}

/// The mathematical content of a [`Step`].
#[verifier::ext_equal]
pub struct StepView<S, C> {
    pub state: S,
    pub notices: Seq<Notice>,
    pub command: Option<C>,
}

impl<S, C> View for Step<S, C> {
    type V = StepView<S, C>;

    open spec fn view(&self) -> StepView<S, C> {
        StepView { state: self.state, notices: self.notices@, command: self.command }
    }
}

/// A step that prints nothing.
pub open spec fn silent<S, C>(state: S, command: Option<C>) -> StepView<S, C> {
    StepView { state, notices: Seq::empty(), command }
}

/// A step that prints one line.
pub open spec fn telling<S, C>(state: S, notice: Notice, command: Option<C>) -> StepView<S, C> {
    StepView { state, notices: seq![notice], command }
}

impl<S, C> StepView<S, C> {
    /// The same step with one more line printed first.
    pub open spec fn after_telling(self, notice: Notice) -> StepView<S, C> {
        StepView { notices: seq![notice] + self.notices, ..self }
    }
}

impl<S, C> Step<S, C> {
    /// A step that prints nothing.
    pub fn silent(state: S, command: Option<C>) -> (step: Self)
        ensures
            step@ == silent(state, command),
            step.state == state,
            step.notices@.len() == 0,
            step.command == command,
    {
        Step { state, notices: Vec::new(), command }
    }

    /// A step that prints one line.
    pub fn telling(state: S, notice: Notice, command: Option<C>) -> (step: Self)
        ensures
            step@ == telling(state, notice, command),
            step.state == state,
            step.notices@.len() == 1,
            step.notices@[0] == notice,
            step.command == command,
    {
        Step { state, notices: vec![notice], command }
    }

    /// The same step with one more line printed first.
    pub fn after_telling(self, notice: Notice) -> (step: Self)
        ensures
            step@ == self@.after_telling(notice),
            step.state == self.state,
            step.notices@ == seq![notice] + self.notices@,
            step.command == self.command,
    {
        let mut notices: Vec<Notice> = vec![notice];
        let mut rest: Vec<Notice> = self.notices;
        notices.append(&mut rest);
        Step { state: self.state, notices, command: self.command }
    }
}

/// Nothing of a step is lost in its mathematical content, and nothing is added to it.
pub proof fn law_content_is_the_whole_step<S, C>(step: Step<S, C>)
    ensures
        step@.state == step.state,
        step@.notices == step.notices@,
        step@.command == step.command,
{
}

} // verus!
