//! The interactive commit workflow state machine.
//!
//! The driver loop owns exactly one state value at a time and advances it
//! with the pure transition functions here; all input/output stays outside.
//!
//! On editing, this implementation keeps the edited text in
//! `WaitingForAction` and commits it only on a subsequent accept, so the
//! menu is offered again after an edit; accept-after-edit still commits the
//! edited text verbatim.

use vstd::prelude::*;
use crate::error::{ErrorModel, GcopError, GcopResult};

verus! {

/// Model of a workflow state: attempts as naturals, texts as character
/// sequences.
pub enum StateModel {
    Generating { attempt: nat, feedbacks: Seq<Seq<char>> },
    WaitingForAction { message: Seq<char>, attempt: nat, feedbacks: Seq<Seq<char>> },
    Accepted { message: Seq<char> },
    Cancelled,
}

/// Model of a user action.
pub enum ActionModel {
    Accept,
    Edit { new_message: Seq<char> },
    EditCancelled,
    Retry,
    RetryWithFeedback { feedback: Option<Seq<char>> },
    Quit,
}

/// Model of a generation outcome handed to the state machine.
pub enum GenResultModel {
    Success(Seq<char>),
    MaxRetriesExceeded,
}

/// One state of the commit workflow.
#[derive(Debug, Clone)]
pub enum CommitState {
    /// A message must be generated (or regenerated).
    Generating { attempt: usize, feedbacks: Vec<String> },
    /// A generated message is shown and the user decides what happens next.
    WaitingForAction { message: String, attempt: usize, feedbacks: Vec<String> },
    /// The user accepted; the message is ready to commit.
    Accepted { message: String },
    /// The user cancelled the workflow.
    Cancelled,
}

/// What the user chose while a message was displayed.
#[derive(Debug, Clone)]
pub enum UserAction {
    Accept,
    Edit { new_message: String },
    EditCancelled,
    Retry,
    RetryWithFeedback { feedback: Option<String> },
    Quit,
}

/// Outcome of one generation attempt.
#[derive(Debug, Clone)]
pub enum GenerationResult {
    Success(String),
    MaxRetriesExceeded,
}

impl View for CommitState {
    type V = StateModel;

    open spec fn view(&self) -> StateModel {
        match self {
            CommitState::Generating { attempt, feedbacks } => StateModel::Generating {
                attempt: *attempt as nat,
                feedbacks: feedbacks.deep_view(),
            },
            CommitState::WaitingForAction { message, attempt, feedbacks } =>
                StateModel::WaitingForAction {
                message: message@,
                attempt: *attempt as nat,
                feedbacks: feedbacks.deep_view(),
            },
            CommitState::Accepted { message } => StateModel::Accepted { message: message@ },
            CommitState::Cancelled => StateModel::Cancelled,
        }
    }
}

impl View for UserAction {
    type V = ActionModel;

    open spec fn view(&self) -> ActionModel {
        match self {
            UserAction::Accept => ActionModel::Accept,
            UserAction::Edit { new_message } => ActionModel::Edit { new_message: new_message@ },
            UserAction::EditCancelled => ActionModel::EditCancelled,
            UserAction::Retry => ActionModel::Retry,
            UserAction::RetryWithFeedback { feedback } => ActionModel::RetryWithFeedback {
                feedback: feedback.deep_view(),
            },
            UserAction::Quit => ActionModel::Quit,
        }
    }
}

impl View for GenerationResult {
    type V = GenResultModel;

    open spec fn view(&self) -> GenResultModel {
        match self {
            GenerationResult::Success(m) => GenResultModel::Success(m@),
            GenerationResult::MaxRetriesExceeded => GenResultModel::MaxRetriesExceeded,
        }
    }
}

/// The retry limit is reached exactly when a generating state's attempt
/// counter is at or past it.
pub open spec fn spec_at_max_retries(s: StateModel, max_retries: nat) -> bool {
    s matches StateModel::Generating { attempt, .. } && attempt >= max_retries
}

/// Transition out of `Generating` on a generation outcome.
pub open spec fn spec_handle_generation(
    s: StateModel,
    result: GenResultModel,
    auto_accept: bool,
) -> Result<StateModel, ErrorModel>
    recommends
        s is Generating,
{
    match s {
        StateModel::Generating { attempt, feedbacks } => match result {
            GenResultModel::MaxRetriesExceeded => Err(ErrorModel::RetryLimitExceeded),
            GenResultModel::Success(message) => if auto_accept {
                Ok(StateModel::Accepted { message })
            } else {
                Ok(StateModel::WaitingForAction { message, attempt, feedbacks })
            },
        },
        _ => Ok(s),
    }
}

/// Transition out of `WaitingForAction` on a user action.
pub open spec fn spec_handle_action(s: StateModel, action: ActionModel) -> StateModel
    recommends
        s is WaitingForAction,
{
    match s {
        StateModel::WaitingForAction { message, attempt, feedbacks } => match action {
            ActionModel::Accept => StateModel::Accepted { message },
            ActionModel::Edit { new_message } => StateModel::WaitingForAction {
                message: new_message,
                attempt,
                feedbacks,
            },
            ActionModel::EditCancelled => StateModel::WaitingForAction {
                message,
                attempt,
                feedbacks,
            },
            ActionModel::Retry => StateModel::Generating { attempt: attempt + 1, feedbacks },
            ActionModel::RetryWithFeedback { feedback } => StateModel::Generating {
                attempt: attempt + 1,
                feedbacks: match feedback {
                    Some(f) => feedbacks.push(f),
                    None => feedbacks,
                },
            },
            ActionModel::Quit => StateModel::Cancelled,
        },
        _ => s,
    }
}

impl CommitState {
    /// Whether this generating state has reached the retry limit.
    pub fn is_at_max_retries(&self, max_retries: usize) -> (r: bool)
        ensures
            r == spec_at_max_retries(self@, max_retries as nat),
    {
        match self {
            CommitState::Generating { attempt, .. } => *attempt >= max_retries,
            _ => false,
        }
    }

    /// Fold a generation outcome into the next state.
    ///
    /// An exhausted retry budget is a policy error distinct from backend
    /// failure; a successful generation either waits for the user or, in
    /// auto-accept mode, is accepted at once.
    pub fn handle_generation(self, result: GenerationResult, auto_accept: bool) -> (r:
        GcopResult<Self>)
        requires
            self@ is Generating,
        ensures
            match spec_handle_generation(self@, result@, auto_accept) {
                Ok(m) => r matches Ok(s) && s@ == m,
                Err(e) => r matches Err(x) && x@ == e,
            },
    {
        match self {
            CommitState::Generating { attempt, feedbacks } => match result {
                GenerationResult::MaxRetriesExceeded => Err(GcopError::RetryLimitExceeded),
                GenerationResult::Success(message) => if auto_accept {
                    Ok(CommitState::Accepted { message })
                } else {
                    Ok(CommitState::WaitingForAction { message, attempt, feedbacks })
                },
            },
            _ => Err(GcopError::RetryLimitExceeded),
        }
    }

    /// Fold a user action into the next state.
    ///
    /// Feedback is only ever appended, the attempt counter only ever grows,
    /// a cancelled edit keeps the current message, and quitting cancels.
    pub fn handle_action(self, action: UserAction) -> (r: Self)
        requires
            self@ is WaitingForAction,
            self@ matches StateModel::WaitingForAction { attempt, .. } ==> attempt
                < usize::MAX,
        ensures
            r@ == spec_handle_action(self@, action@),
    {
        match self {
            CommitState::WaitingForAction { message, attempt, feedbacks } => match action {
                UserAction::Accept => CommitState::Accepted { message },
                UserAction::Edit { new_message } => CommitState::WaitingForAction {
                    message: new_message,
                    attempt,
                    feedbacks,
                },
                UserAction::EditCancelled => CommitState::WaitingForAction {
                    message,
                    attempt,
                    feedbacks,
                },
                UserAction::Retry => CommitState::Generating {
                    attempt: attempt + 1,
                    feedbacks,
                },
                UserAction::RetryWithFeedback { feedback } => {
                    let ghost old_fbs = feedbacks.deep_view();
                    let mut new_feedbacks = feedbacks;
                    match feedback {
                        Some(fb) => {
                            let ghost fbv = fb@;
                            new_feedbacks.push(fb);
                            proof {
                                assert(new_feedbacks.deep_view() =~= old_fbs.push(fbv));
                            }
                        },
                        None => {},
                    }
                    CommitState::Generating { attempt: attempt + 1, feedbacks: new_feedbacks }
                },
                UserAction::Quit => CommitState::Cancelled,
            },
            other => other,
        }
    }
}

// ---------------------------------------------------------------------------
// Laws of the state machine
// ---------------------------------------------------------------------------

/// An action that asks for another generation attempt.
pub open spec fn is_retry_action(a: ActionModel) -> bool {
    a is Retry || a is RetryWithFeedback
}

/// The feedback texts supplied by a run of actions, in order; plain retries
/// and empty feedback prompts supply nothing.
pub open spec fn supplied_feedback(actions: Seq<ActionModel>) -> Seq<Seq<char>>
    decreases actions.len(),
{
    if actions.len() == 0 {
        Seq::empty()
    } else {
        (match actions[0] {
            ActionModel::RetryWithFeedback { feedback: Some(f) } => seq![f],
            _ => Seq::<Seq<char>>::empty(),
        }) + supplied_feedback(actions.skip(1))
    }
}

/// One retry round: the user's action followed by a successful generation,
/// shown to the user again (interactive mode).
pub open spec fn spec_retry_round(s: StateModel, a: ActionModel, msg: Seq<char>) -> StateModel {
    match spec_handle_generation(spec_handle_action(s, a), GenResultModel::Success(msg), false) {
        Ok(next) => next,
        Err(_) => s,
    }
}

/// A run of retry rounds with the successively generated messages.
pub open spec fn run_retry_rounds(
    s: StateModel,
    actions: Seq<ActionModel>,
    msgs: Seq<Seq<char>>,
) -> StateModel
    decreases actions.len(),
{
    if actions.len() == 0 {
        s
    } else {
        run_retry_rounds(spec_retry_round(s, actions[0], msgs[0]), actions.skip(1), msgs.skip(1))
    }
}

/// Law: across any run of retry rounds — plain retries and retries with
/// feedback, in any interleaving, each followed by a successful generation —
/// the attempt counter advances by exactly one per round, and the feedback
/// sequence grows by exactly the supplied texts, in order.
pub proof fn lemma_retry_rounds(s: StateModel, actions: Seq<ActionModel>, msgs: Seq<Seq<char>>)
    requires
        s is WaitingForAction,
        actions.len() == msgs.len(),
        forall|i: int| 0 <= i < actions.len() ==> is_retry_action(#[trigger] actions[i]),
    ensures
        run_retry_rounds(s, actions, msgs) is WaitingForAction,
        run_retry_rounds(s, actions, msgs)->WaitingForAction_attempt
            == s->WaitingForAction_attempt + actions.len(),
        run_retry_rounds(s, actions, msgs)->WaitingForAction_feedbacks
            == s->WaitingForAction_feedbacks + supplied_feedback(actions),
    decreases actions.len(),
{
    if actions.len() == 0 {
        assert(s->WaitingForAction_feedbacks + supplied_feedback(actions)
            =~= s->WaitingForAction_feedbacks);
    } else {
        let next = spec_retry_round(s, actions[0], msgs[0]);
        lemma_retry_rounds(next, actions.skip(1), msgs.skip(1));
        assert(next->WaitingForAction_feedbacks + supplied_feedback(actions.skip(1))
            =~= s->WaitingForAction_feedbacks + supplied_feedback(actions));
    }
}

/// Law: starting with no feedback, a run of retry rounds ends with exactly
/// the supplied feedback texts, in order.
pub proof fn lemma_feedback_accumulation(
    s: StateModel,
    actions: Seq<ActionModel>,
    msgs: Seq<Seq<char>>,
)
    requires
        s is WaitingForAction,
        s->WaitingForAction_feedbacks == Seq::<Seq<char>>::empty(),
        actions.len() == msgs.len(),
        forall|i: int| 0 <= i < actions.len() ==> is_retry_action(#[trigger] actions[i]),
    ensures
        run_retry_rounds(s, actions, msgs)->WaitingForAction_feedbacks == supplied_feedback(
            actions,
        ),
{
    lemma_retry_rounds(s, actions, msgs);
    assert(s->WaitingForAction_feedbacks + supplied_feedback(actions) =~= supplied_feedback(
        actions,
    ));
}

/// Law: starting at attempt 0, after a run of retry rounds the attempt
/// counter equals the number of rounds.
pub proof fn lemma_attempt_count(s: StateModel, actions: Seq<ActionModel>, msgs: Seq<Seq<char>>)
    requires
        s is WaitingForAction,
        s->WaitingForAction_attempt == 0,
        actions.len() == msgs.len(),
        forall|i: int| 0 <= i < actions.len() ==> is_retry_action(#[trigger] actions[i]),
    ensures
        run_retry_rounds(s, actions, msgs)->WaitingForAction_attempt == actions.len(),
{
    lemma_retry_rounds(s, actions, msgs);
}

/// One sequence is a prefix of another.
pub open spec fn is_prefix_of(shorter: Seq<Seq<char>>, longer: Seq<Seq<char>>) -> bool {
    shorter.len() <= longer.len() && longer.take(shorter.len() as int) == shorter
}

/// Law: within a run, no user action ever decreases the attempt counter, and
/// the feedback sequence only ever grows by appending — it is never
/// rewritten or truncated before a terminal state.
pub proof fn lemma_action_preserves_history(s: StateModel, a: ActionModel)
    requires
        s is WaitingForAction,
    ensures
        spec_handle_action(s, a) matches StateModel::Generating { attempt, feedbacks } ==> attempt
            >= s->WaitingForAction_attempt && is_prefix_of(
            s->WaitingForAction_feedbacks,
            feedbacks,
        ),
        spec_handle_action(s, a) matches StateModel::WaitingForAction {
            attempt,
            feedbacks,
            ..
        } ==> attempt == s->WaitingForAction_attempt && feedbacks
            == s->WaitingForAction_feedbacks,
{
    let old_fbs = s->WaitingForAction_feedbacks;
    match spec_handle_action(s, a) {
        StateModel::Generating { feedbacks, .. } => {
            assert(feedbacks.take(old_fbs.len() as int) =~= old_fbs);
        },
        _ => {},
    }
}

/// Law: folding a successful generation into a generating state keeps the
/// attempt counter and the feedback sequence exactly as they were.
pub proof fn lemma_generation_preserves_history(s: StateModel, msg: Seq<char>)
    requires
        s is Generating,
    ensures
        spec_handle_generation(s, GenResultModel::Success(msg), false) == Ok::<
            StateModel,
            ErrorModel,
        >(
            StateModel::WaitingForAction {
                message: msg,
                attempt: s->Generating_attempt,
                feedbacks: s->Generating_feedbacks,
            },
        ),
{
}

/// Law: once a generating state's attempt counter reaches the retry limit,
/// it is flagged as exhausted, and folding in the exhaustion outcome always
/// fails with the distinct retry-limit error — never a backend error.
pub proof fn lemma_retry_limit(s: StateModel, max_retries: nat, auto_accept: bool)
    requires
        s matches StateModel::Generating { attempt, .. } && attempt >= max_retries,
    ensures
        spec_at_max_retries(s, max_retries),
        spec_handle_generation(s, GenResultModel::MaxRetriesExceeded, auto_accept)
            == Err::<StateModel, ErrorModel>(ErrorModel::RetryLimitExceeded),
{
}

/// Law: an edit followed by an accept commits the edited text verbatim,
/// whitespace included.
pub proof fn lemma_edit_then_accept(s: StateModel, edited: Seq<char>)
    requires
        s is WaitingForAction,
    ensures
        spec_handle_action(
            spec_handle_action(s, (ActionModel::Edit { new_message: edited })),
            ActionModel::Accept,
        ) == (StateModel::Accepted { message: edited }),
{
}

/// Law: a cancelled edit leaves the state, and in particular the displayed
/// message, unchanged.
pub proof fn lemma_edit_cancelled_keeps_message(s: StateModel)
    requires
        s is WaitingForAction,
    ensures
        spec_handle_action(s, ActionModel::EditCancelled) == s,
{
}

/// Law: quitting from any waiting state cancels the workflow; it produces
/// the distinct cancelled terminal, never an error.
pub proof fn lemma_quit_cancels(s: StateModel)
    requires
        s is WaitingForAction,
    ensures
        spec_handle_action(s, ActionModel::Quit) == StateModel::Cancelled,
{
}

} // verus!
