//! The vocabulary of turn submissions: what is submitted, under which
//! conditions, and what the thread answers.

use std::collections::BTreeMap;

use vstd::prelude::*;

use crate::absolute_path::AbsolutePathBuf;
use crate::environment::TurnEnvironment;

verus! {

/// A marked-up span of a text input, as its JSON text.
#[derive(Clone, Debug, PartialEq, Eq)]
pub struct TextElement {
    pub json: String,
}

/// One item of user input, as the thread takes it.
#[derive(Clone, Debug, PartialEq, Eq)]
pub enum UserInput {
    Text { text: String, text_elements: Vec<TextElement> },
    /// An item that admission carries through unread, as its JSON text.
    Other { json: String },
}

/// One item of user input, as a client sends it.
#[derive(Debug, PartialEq, Eq)]
pub enum V2UserInput {
    Text { text: String, text_elements: Vec<TextElement> },
    /// An item that admission carries through unread, as its JSON text.
    Other { json: String },
}

impl V2UserInput {
    /// The item that the thread takes for this one.
    pub open spec fn as_core(self) -> UserInput {
        match self {
            V2UserInput::Text { text, text_elements } => UserInput::Text { text, text_elements },
            V2UserInput::Other { json } => UserInput::Other { json },
        }
    }

    /// Turns a client's item into the thread's.
    pub fn into_core(self) -> (item: UserInput)
        ensures
            item == self.as_core(),
    {
        match self {
            V2UserInput::Text { text, text_elements } => UserInput::Text { text, text_elements },
            V2UserInput::Other { json } => UserInput::Other { json },
        }
    }
}

/// The items that the thread takes for `input`, one for each, in order.
pub open spec fn core_items(input: Seq<V2UserInput>) -> Seq<UserInput> {
    input.map_values(|item: V2UserInput| item.as_core())
}

/// Turns a client's input into the thread's, item by item.
pub fn into_core_items(input: Vec<V2UserInput>) -> (items: Vec<UserInput>)
    ensures
        items@ == core_items(input@),
{
    let mut items: Vec<UserInput> = Vec::new();
    for item in iter: input
        invariant
            items@.len() == iter.index(),
            iter.seq() == input@,
            forall|i: int| 0 <= i < items@.len() ==> items@[i] == #[trigger] input@[i].as_core(),
    {
        items.push(item.into_core());
    }
    assert(items@ =~= core_items(input@));
    items
}

/// One piece of a message.
#[derive(Debug, PartialEq, Eq)]
pub enum ContentItem {
    InputText { text: String },
}

/// An item of the conversation that is submitted as it stands.
#[derive(Debug, PartialEq, Eq)]
pub enum ResponseItem {
    Message {
        id: Option<String>,
        role: String,
        content: Vec<ContentItem>,
        /// The JSON text of the message's phase.
        phase: Option<String>,
        /// The JSON text of metadata that is passed through unread.
        internal_chat_message_metadata_passthrough: Option<String>,
    },
}

impl ResponseItem {
    /// A message of the user's that holds `text` and nothing else.
    pub fn user_message(text: &str) -> (item: ResponseItem)
        ensures
            item matches ResponseItem::Message {
                id,
                role,
                content,
                phase,
                internal_chat_message_metadata_passthrough: metadata,
            } && {
                &&& id is None
                &&& phase is None
                &&& metadata is None
                &&& role@ == "user"@
                &&& content@.len() == 1
                &&& content@[0] matches ContentItem::InputText { text: held } && held@ == text@
            },
    {
        ResponseItem::Message {
            id: None,
            role: "user".to_string(),
            content: vec![ContentItem::InputText { text: text.to_string() }],
            phase: None,
            internal_chat_message_metadata_passthrough: None,
        }
    }
}

/// What a submission puts into a turn.
#[derive(Debug, PartialEq, Eq)]
pub enum TurnInput {
    UserInput { content: Vec<UserInput>, client_id: Option<String> },
    ResponseItem(ResponseItem),
}

impl TurnInput {
    /// The user typed something: the one input that plan mode lets through.
    pub open spec fn is_user_content(self) -> bool {
        self matches TurnInput::UserInput { content, .. } && content@.len() > 0
    }

    /// Whether this is user input with at least one item.
    pub fn has_user_content(&self) -> (found: bool)
        ensures
            found == self.is_user_content(),
    {
        match self {
            TurnInput::UserInput { content, .. } => content.len() > 0,
            TurnInput::ResponseItem(_) => false,
        }
    }

    /// Whether this came from the user, with or without items.
    pub fn is_from_user(&self) -> (found: bool)
        ensures
            found == (self is UserInput),
    {
        match self {
            TurnInput::UserInput { .. } => true,
            TurnInput::ResponseItem(_) => false,
        }
    }
}

/// When the user is asked before something is run.
#[derive(Clone, Copy, Debug, PartialEq, Eq, Structural)]
pub enum AskForApproval {
    UnlessTrusted,
    OnFailure,
    OnRequest,
    Never,
}

/// Who answers when approval is asked for.
#[derive(Clone, Copy, Debug, PartialEq, Eq, Structural)]
pub enum ApprovalsReviewer {
    User,
    AutoReview,
}

/// The collaboration mode of a thread.
#[derive(Clone, Copy, Debug, PartialEq, Eq, Structural)]
pub enum ModeKind {
    Default,
    Plan,
}

/// The thread settings that a submission changes, field by field. The fields
/// of type `String` hold JSON text.
#[derive(Debug, PartialEq, Eq)]
pub struct ThreadSettingsOverrides {
    pub environments: Option<Vec<TurnEnvironment>>,
    pub approval_policy: Option<AskForApproval>,
    pub approvals_reviewer: Option<ApprovalsReviewer>,
    pub sandbox_policy: Option<String>,
    pub permission_profile: Option<String>,
    pub summary: Option<String>,
    pub personality: Option<String>,
    pub collaboration_mode: Option<ModeKind>,
}

/// The overrides that change nothing.
pub open spec fn no_overrides() -> ThreadSettingsOverrides {
    ThreadSettingsOverrides {
        environments: None,
        approval_policy: None,
        approvals_reviewer: None,
        sandbox_policy: None,
        permission_profile: None,
        summary: None,
        personality: None,
        collaboration_mode: None,
    }
}

impl Default for ThreadSettingsOverrides {
    fn default() -> (overrides: Self)
        ensures
            overrides == no_overrides(),
    {
        ThreadSettingsOverrides {
            environments: None,
            approval_policy: None,
            approvals_reviewer: None,
            sandbox_policy: None,
            permission_profile: None,
            summary: None,
            personality: None,
            collaboration_mode: None,
        }
    }
}

impl ThreadSettingsOverrides {
    /// Whether no field is set.
    pub fn is_empty(&self) -> (empty: bool)
        ensures
            empty == (*self == no_overrides()),
    {
        self.environments.is_none() && self.approval_policy.is_none()
            && self.approvals_reviewer.is_none() && self.sandbox_policy.is_none()
            && self.permission_profile.is_none() && self.summary.is_none()
            && self.personality.is_none() && self.collaboration_mode.is_none()
    }
}

/// Options of the turn that a submission starts. Admission reads none.
#[derive(Debug, PartialEq, Eq)]
pub struct TurnStartOptions {}

impl Default for TurnStartOptions {
    fn default() -> (options: Self)
        ensures
            options == (TurnStartOptions {  }),
    {
        TurnStartOptions {  }
    }
}

/// The trace that a request belongs to.
#[derive(Clone, Debug, PartialEq, Eq)]
pub struct W3cTraceContext {
    pub traceparent: Option<String>,
    pub tracestate: Option<String>,
}

/// A submission to a thread.
#[derive(Debug, PartialEq, Eq)]
pub struct TurnInputRequest {
    pub input: TurnInput,
    pub thread_settings: ThreadSettingsOverrides,
    pub start: TurnStartOptions,
    pub additional_context: BTreeMap<String, String>,
    pub responsesapi_client_metadata: Option<BTreeMap<String, String>>,
    pub trace: Option<W3cTraceContext>,
}

/// What a submission brings along for the turn besides its input.
#[derive(Debug, PartialEq, Eq)]
pub struct SubmissionContext {
    pub start: TurnStartOptions,
    pub additional_context: BTreeMap<String, String>,
    pub responsesapi_client_metadata: Option<BTreeMap<String, String>>,
    pub trace: Option<W3cTraceContext>,
}

impl TurnInputRequest {
    /// What the request brings along besides its input and its settings.
    pub open spec fn context(self) -> SubmissionContext {
        SubmissionContext {
            start: self.start,
            additional_context: self.additional_context,
            responsesapi_client_metadata: self.responsesapi_client_metadata,
            trace: self.trace,
        }
    }

    /// Takes the request apart: its input, its settings, and the rest.
    pub fn into_parts(self) -> (parts: (TurnInput, ThreadSettingsOverrides, SubmissionContext))
        ensures
            parts == (self.input, self.thread_settings, self.context()),
    {
        (
            self.input,
            self.thread_settings,
            SubmissionContext {
                start: self.start,
                additional_context: self.additional_context,
                responsesapi_client_metadata: self.responsesapi_client_metadata,
                trace: self.trace,
            },
        )
    }

    /// The request asks for nothing besides its input and its trace.
    pub open spec fn is_plain(self) -> bool {
        &&& self.thread_settings == no_overrides()
        &&& self.start == (TurnStartOptions {  })
        &&& self.additional_context@ == Map::<String, String>::empty()
        &&& self.responsesapi_client_metadata is None
    }

    /// Submits `input` and asks for nothing else.
    pub fn new(input: TurnInput) -> (request: TurnInputRequest)
        ensures
            request.input == input,
            request.is_plain(),
            request.trace is None,
    {
        TurnInputRequest {
            input,
            thread_settings: ThreadSettingsOverrides::default(),
            start: TurnStartOptions::default(),
            additional_context: BTreeMap::new(),
            responsesapi_client_metadata: None,
            trace: None,
        }
    }

    /// Submits user input without a client's id and asks for nothing else.
    pub fn user_input(content: Vec<UserInput>) -> (request: TurnInputRequest)
        ensures
            request.input == (TurnInput::UserInput { content, client_id: None }),
            request.is_plain(),
            request.trace is None,
    {
        TurnInputRequest::new(TurnInput::UserInput { content, client_id: None })
    }

    /// The same submission with `thread_settings` in place of its own.
    pub fn with_thread_settings(self, thread_settings: ThreadSettingsOverrides) -> (request:
        TurnInputRequest)
        ensures
            request == (TurnInputRequest { thread_settings, ..self }),
    {
        TurnInputRequest { thread_settings, ..self }
    }

    /// The same submission with `trace` in place of its own.
    pub fn with_trace(self, trace: Option<W3cTraceContext>) -> (request: TurnInputRequest)
        ensures
            request == (TurnInputRequest { trace, ..self }),
    {
        TurnInputRequest { trace, ..self }
    }
}

/// How a submission relates to the turn that is running, if any.
#[derive(Debug, PartialEq, Eq)]
pub enum TurnInputMode {
    /// Start a turn, or do nothing.
    StartIfIdle,
    /// Start a turn, or join the one that is running.
    StartOrSteer,
    /// Join the turn of that id, or do nothing.
    Steer { expected_turn_id: String },
}

/// A kind of turn that takes no further input.
#[derive(Clone, Copy, Debug, PartialEq, Eq, Structural)]
pub enum NonSteerableTurnKind {
    Review,
    Compact,
}

/// Why a submission was not taken.
#[derive(Debug, PartialEq, Eq)]
pub enum NotSubmittedReason {
    NotIdle,
    PendingTriggerTurn,
    PlanMode,
    NoActiveTurn,
    ExpectedTurnMismatch { expected: String, actual: String },
    ActiveTurnNotSteerable { turn_kind: NonSteerableTurnKind },
}

/// What became of a submission.
#[derive(Debug, PartialEq, Eq)]
pub enum TurnInputSubmission {
    Started { turn_id: String },
    Steered { turn_id: String },
    NotSubmitted { reason: NotSubmittedReason },
}

/// Why a conditional start was not taken.
#[derive(Debug, PartialEq, Eq)]
pub enum StartIfIdlePreconditionNotSubmittedReason {
    NotIdle,
    PendingTriggerTurn,
    PlanMode,
    ExpectedCwdMismatch,
    PersistenceDisabled,
    ThreadSettingsUnsupported,
    EnvironmentNotReady,
    /// A reason that this version has no name for, as its debugging text.
    Unrecognized { debug: String },
}

/// What became of a conditional start.
#[derive(Debug, PartialEq, Eq)]
pub enum StartIfIdlePreconditionSubmission {
    Started { turn_id: String },
    NotSubmitted { reason: StartIfIdlePreconditionNotSubmittedReason },
    /// An outcome that this version has no name for.
    Unrecognized,
}

/// What a conditional start demands of the thread, besides being idle.
#[derive(Debug, PartialEq, Eq)]
pub struct StartIfIdlePreconditions {
    expected_cwd: Option<AbsolutePathBuf>,
    require_persistence: bool,
    disallow_plan_mode: bool,
}

/// The demands that [`StartIfIdlePreconditions`] holds.
pub struct PreconditionsView {
    /// The directory that the turn has to work in.
    pub expected_cwd: Option<AbsolutePathBuf>,
    /// The thread has to be stored.
    pub require_persistence: bool,
    /// The thread must not be in plan mode, whatever the input.
    pub disallow_plan_mode: bool,
}

/// No demand at all.
pub open spec fn no_preconditions() -> PreconditionsView {
    PreconditionsView { expected_cwd: None, require_persistence: false, disallow_plan_mode: false }
}

impl View for StartIfIdlePreconditions {
    type V = PreconditionsView;

    closed spec fn view(&self) -> PreconditionsView {
        PreconditionsView {
            expected_cwd: self.expected_cwd,
            require_persistence: self.require_persistence,
            disallow_plan_mode: self.disallow_plan_mode,
        }
    }
}

impl Default for StartIfIdlePreconditions {
    fn default() -> (preconditions: Self)
        ensures
            preconditions@ == no_preconditions(),
    {
        StartIfIdlePreconditions {
            expected_cwd: None,
            require_persistence: false,
            disallow_plan_mode: false,
        }
    }
}

impl StartIfIdlePreconditions {
    /// Demands that the turn work in `expected_cwd`.
    pub fn with_expected_cwd(self, expected_cwd: AbsolutePathBuf) -> (preconditions: Self)
        ensures
            preconditions@ == (PreconditionsView { expected_cwd: Some(expected_cwd), ..self@ }),
    {
        StartIfIdlePreconditions { expected_cwd: Some(expected_cwd), ..self }
    }

    /// Demands that the thread be stored.
    pub fn require_persistence(self) -> (preconditions: Self)
        ensures
            preconditions@ == (PreconditionsView { require_persistence: true, ..self@ }),
    {
        StartIfIdlePreconditions { require_persistence: true, ..self }
    }

    /// Demands that the thread not be in plan mode.
    pub fn disallow_plan_mode(self) -> (preconditions: Self)
        ensures
            preconditions@ == (PreconditionsView { disallow_plan_mode: true, ..self@ }),
    {
        StartIfIdlePreconditions { disallow_plan_mode: true, ..self }
    }

    /// The directory that the turn has to work in, where one is demanded.
    pub fn expected_cwd(&self) -> (expected_cwd: Option<&AbsolutePathBuf>)
        ensures
            expected_cwd == (match self@.expected_cwd {
                Some(cwd) => Some(&cwd),
                None => None,
            }),
    {
        match &self.expected_cwd {
            Some(cwd) => Some(cwd),
            None => None,
        }
    }

    /// Whether the thread has to be stored.
    pub fn requires_persistence(&self) -> (required: bool)
        ensures
            required == self@.require_persistence,
    {
        self.require_persistence
    }

    /// Whether plan mode rules the start out, whatever the input.
    pub fn disallows_plan_mode(&self) -> (disallowed: bool)
        ensures
            disallowed == self@.disallow_plan_mode,
    {
        self.disallow_plan_mode
    }
}

} // verus!
