//! A thread's session: what it is busy with, and which submissions it takes.

use vstd::prelude::*;

use crate::absolute_path::AbsolutePathBuf;
use crate::completion::{TurnCompleteEvent, TurnEnd};
use crate::environment::{
    first_ready_cwd, has_starting_first, primary_cwd, starting_first, TurnEnvironment,
};
use crate::turn_input::{
    no_overrides, ApprovalsReviewer, AskForApproval, ModeKind, NonSteerableTurnKind,
    NotSubmittedReason, PreconditionsView, StartIfIdlePreconditionNotSubmittedReason,
    StartIfIdlePreconditionSubmission, StartIfIdlePreconditions, SubmissionContext,
    ThreadSettingsOverrides, TurnInput, TurnInputMode, TurnInputRequest, TurnInputSubmission,
};

verus! {

/// What a turn does.
#[derive(Clone, Copy, Debug, PartialEq, Eq, Structural)]
pub enum TaskKind {
    Regular,
    Review,
    Compact,
}

/// The task of a turn that has started.
#[derive(Debug, PartialEq, Eq)]
pub struct RunningTask {
    pub turn_id: String,
    /// The turn that this one goes back to, if it is known.
    pub root_turn_id: Option<String>,
    pub kind: TaskKind,
    /// What the turn started with.
    pub input: Vec<TurnInput>,
    /// What the submission that started the turn brought along, if one did.
    pub context: Option<SubmissionContext>,
    /// The directory that the turn works in.
    pub cwd: Option<AbsolutePathBuf>,
}

/// What was submitted to a turn since it started.
#[derive(Debug, PartialEq, Eq)]
pub struct PendingInput {
    pub input: TurnInput,
    pub context: SubmissionContext,
}

/// The one turn that a session can have. It is merely reserved as long as it
/// has no task.
#[derive(Debug, PartialEq, Eq)]
pub struct ActiveTurn {
    pub task: Option<RunningTask>,
    pub pending_input: Vec<PendingInput>,
}

/// The place of an agent among the agents: the names on the way to it from the
/// first one.
#[derive(Debug, PartialEq, Eq)]
pub struct AgentPath {
    pub names: Vec<String>,
}

impl AgentPath {
    /// The place of the first agent.
    pub fn root() -> (path: Self)
        ensures
            path.names@ == Seq::<String>::empty(),
    {
        AgentPath { names: Vec::new() }
    }
}

/// A message of another agent.
#[derive(Debug, PartialEq, Eq)]
pub struct InterAgentCommunication {
    pub author: AgentPath,
    pub recipient: AgentPath,
    pub other_recipients: Vec<AgentPath>,
    pub content: String,
    /// The message is to start a turn.
    pub trigger_turn: bool,
}

impl InterAgentCommunication {
    /// The message of `author` to `recipient` and others.
    pub fn new(
        author: AgentPath,
        recipient: AgentPath,
        other_recipients: Vec<AgentPath>,
        content: String,
        trigger_turn: bool,
    ) -> (communication: Self)
        ensures
            communication == (InterAgentCommunication {
                author,
                recipient,
                other_recipients,
                content,
                trigger_turn,
            }),
    {
        InterAgentCommunication { author, recipient, other_recipients, content, trigger_turn }
    }
}

/// A message that waits in a session's mailbox, and the turns that it comes
/// from.
#[derive(Debug, PartialEq, Eq)]
pub struct MailboxItem {
    pub communication: InterAgentCommunication,
    pub parent_turn_id: Option<String>,
    pub root_turn_id: Option<String>,
}

/// Some message is to start a turn.
pub open spec fn any_trigger(mailbox: Seq<MailboxItem>) -> bool {
    exists|i: int| 0 <= i < mailbox.len() && (#[trigger] mailbox[i]).communication.trigger_turn
}

/// What the session announces.
#[derive(Debug, PartialEq, Eq)]
pub enum SessionEvent {
    TurnStarted { turn_id: String },
}

/// The settings of a thread. The fields of type `String` hold JSON text.
#[derive(Debug, PartialEq, Eq)]
pub struct SessionConfiguration {
    /// The selected environments, the one of highest precedence first.
    pub environments: Vec<TurnEnvironment>,
    pub approval_policy: AskForApproval,
    pub approvals_reviewer: ApprovalsReviewer,
    pub sandbox_policy: String,
    pub permission_profile: String,
    pub summary: Option<String>,
    pub personality: Option<String>,
    pub collaboration_mode: ModeKind,
}

/// `overrides` where they say something, `configuration` elsewhere.
pub open spec fn overridden(
    configuration: SessionConfiguration,
    overrides: ThreadSettingsOverrides,
) -> SessionConfiguration {
    SessionConfiguration {
        environments: overrides.environments.unwrap_or(configuration.environments),
        approval_policy: overrides.approval_policy.unwrap_or(configuration.approval_policy),
        approvals_reviewer: overrides.approvals_reviewer.unwrap_or(
            configuration.approvals_reviewer,
        ),
        sandbox_policy: overrides.sandbox_policy.unwrap_or(configuration.sandbox_policy),
        permission_profile: overrides.permission_profile.unwrap_or(
            configuration.permission_profile,
        ),
        summary: if overrides.summary is Some {
            overrides.summary
        } else {
            configuration.summary
        },
        personality: if overrides.personality is Some {
            overrides.personality
        } else {
            configuration.personality
        },
        collaboration_mode: overrides.collaboration_mode.unwrap_or(
            configuration.collaboration_mode,
        ),
    }
}

impl SessionConfiguration {
    /// Takes over what `overrides` say.
    pub fn apply(&mut self, overrides: ThreadSettingsOverrides)
        ensures
            *final(self) == overridden(*old(self), overrides),
    {
        if let Some(environments) = overrides.environments {
            self.environments = environments;
        }
        if let Some(approval_policy) = overrides.approval_policy {
            self.approval_policy = approval_policy;
        }
        if let Some(approvals_reviewer) = overrides.approvals_reviewer {
            self.approvals_reviewer = approvals_reviewer;
        }
        if let Some(sandbox_policy) = overrides.sandbox_policy {
            self.sandbox_policy = sandbox_policy;
        }
        if let Some(permission_profile) = overrides.permission_profile {
            self.permission_profile = permission_profile;
        }
        if overrides.summary.is_some() {
            self.summary = overrides.summary;
        }
        if overrides.personality.is_some() {
            self.personality = overrides.personality;
        }
        if let Some(collaboration_mode) = overrides.collaboration_mode {
            self.collaboration_mode = collaboration_mode;
        }
    }
}

/// The session of a thread.
#[derive(Debug, PartialEq, Eq)]
pub struct Session {
    pub configuration: SessionConfiguration,
    /// The thread is stored.
    pub persistent: bool,
    pub active_turn: Option<ActiveTurn>,
    pub mailbox: Vec<MailboxItem>,
    /// The connectors that the next turn of the user's is to use.
    pub connector_selection: Vec<String>,
    /// The MCP servers have to be told of a change before the next turn.
    pub mcp_refresh_pending: bool,
    /// What was announced so far.
    pub events: Vec<SessionEvent>,
}

/// What became of a conditional start whose turn was reserved.
#[derive(Debug, PartialEq, Eq)]
pub struct ReservedStart {
    pub submission: StartIfIdlePreconditionSubmission,
    /// The start gave way to a message that waits to start a turn of its own.
    pub start_pending_work: bool,
}

impl Session {
    /// No turn is running or reserved.
    pub open spec fn is_idle(self) -> bool {
        self.active_turn is None
    }

    /// A turn is reserved and has no task yet.
    pub open spec fn is_reserved(self) -> bool {
        self.active_turn matches Some(active) && active.task is None
    }

    /// No reservation is left behind: what is active has a task.
    pub open spec fn is_settled(self) -> bool {
        self.active_turn matches Some(active) ==> active.task is Some
    }

    /// The task of the turn that is running.
    pub open spec fn running_task(self) -> Option<RunningTask> {
        match self.active_turn {
            Some(active) => active.task,
            None => None,
        }
    }

    /// A message waits to start a turn.
    pub open spec fn has_trigger(self) -> bool {
        any_trigger(self.mailbox@)
    }

    /// Plan mode keeps `input` out: only what the user typed gets through, and
    /// not even that if plan mode is disallowed.
    pub open spec fn plan_mode_rejects(self, input: TurnInput, disallow_plan_mode: bool) -> bool {
        self.configuration.collaboration_mode is Plan && (disallow_plan_mode
            || !input.is_user_content())
    }

    /// The session has been given `overrides`: its settings follow, and the MCP
    /// servers have to be told if someone else now answers for the user.
    pub open spec fn applies(self, before: Session, overrides: ThreadSettingsOverrides) -> bool {
        &&& self.configuration == overridden(before.configuration, overrides)
        &&& self.mcp_refresh_pending == (before.mcp_refresh_pending
            || self.configuration.approvals_reviewer != before.configuration.approvals_reviewer)
    }

    /// The session runs a turn of `kind` that started with `input` and `context`
    /// in the directory of its primary environment, and has nothing pending.
    pub open spec fn runs(
        self,
        turn_id: String,
        root_turn_id: Option<String>,
        kind: TaskKind,
        input: Seq<TurnInput>,
        context: Option<SubmissionContext>,
    ) -> bool {
        self.active_turn matches Some(active) && {
            &&& active.pending_input@ == Seq::<PendingInput>::empty()
            &&& active.task matches Some(task) && {
                &&& task.turn_id == turn_id
                &&& task.root_turn_id == root_turn_id
                &&& task.kind == kind
                &&& task.input@ == input
                &&& task.context == context
                &&& task.cwd == primary_cwd(self.configuration.environments@)
            }
        }
    }

    /// From `before`, the session started the regular turn `turn_id` with
    /// `input` and `context`, under `overrides`, and announced it. The user's
    /// input uses up the selected connectors.
    pub open spec fn starts(
        self,
        before: Session,
        input: Seq<TurnInput>,
        context: Option<SubmissionContext>,
        overrides: ThreadSettingsOverrides,
        turn_id: String,
    ) -> bool {
        &&& self.runs(turn_id, None, TaskKind::Regular, input, context)
        &&& self.applies(before, overrides)
        &&& self.events@ == before.events@.push(SessionEvent::TurnStarted { turn_id })
        &&& if exists|i: int| 0 <= i < input.len() && #[trigger] input[i] is UserInput {
            self.connector_selection@ == Seq::<String>::empty()
        } else {
            self.connector_selection == before.connector_selection
        }
        &&& self.persistent == before.persistent
        &&& self.mailbox == before.mailbox
    }

    /// From `before`, the session put `input` and `context` into the turn that
    /// is running, under `overrides`.
    pub open spec fn steers(
        self,
        before: Session,
        input: TurnInput,
        context: SubmissionContext,
        overrides: ThreadSettingsOverrides,
    ) -> bool {
        &&& before.active_turn matches Some(active) && self.active_turn matches Some(joined) && {
            &&& joined.task == active.task
            &&& joined.pending_input@ == active.pending_input@.push(
                PendingInput { input, context },
            )
        }
        &&& self.applies(before, overrides)
        &&& self.events == before.events
        &&& self.connector_selection == before.connector_selection
        &&& self.persistent == before.persistent
        &&& self.mailbox == before.mailbox
    }

    /// Why a start-only submission of `input` is not taken.
    pub open spec fn start_only_rejection(self, input: TurnInput) -> Option<NotSubmittedReason> {
        if self.plan_mode_rejects(input, false) {
            Some(NotSubmittedReason::PlanMode)
        } else if self.has_trigger() {
            Some(NotSubmittedReason::PendingTriggerTurn)
        } else if !self.is_idle() {
            Some(NotSubmittedReason::NotIdle)
        } else {
            None
        }
    }

    /// Why a submission cannot join the turn `task`.
    pub open spec fn steer_rejection(task: RunningTask) -> Option<NotSubmittedReason> {
        match task.kind {
            TaskKind::Regular => None,
            TaskKind::Review => Some(
                NotSubmittedReason::ActiveTurnNotSteerable {
                    turn_kind: NonSteerableTurnKind::Review,
                },
            ),
            TaskKind::Compact => Some(
                NotSubmittedReason::ActiveTurnNotSteerable {
                    turn_kind: NonSteerableTurnKind::Compact,
                },
            ),
        }
    }

    /// Why a submission of `input` in `mode` is not taken.
    pub open spec fn rejection(self, input: TurnInput, mode: TurnInputMode) -> Option<
        NotSubmittedReason,
    > {
        match mode {
            TurnInputMode::StartIfIdle => self.start_only_rejection(input),
            TurnInputMode::StartOrSteer => match self.running_task() {
                Some(task) => Self::steer_rejection(task),
                None => None,
            },
            TurnInputMode::Steer { expected_turn_id } => match self.running_task() {
                Some(task) => if task.turn_id@ != expected_turn_id@ {
                    Some(
                        NotSubmittedReason::ExpectedTurnMismatch {
                            expected: expected_turn_id,
                            actual: task.turn_id,
                        },
                    )
                } else {
                    Self::steer_rejection(task)
                },
                None => Some(NotSubmittedReason::NoActiveTurn),
            },
        }
    }

    /// The turn would work in the directory that is demanded, if one is.
    pub open spec fn meets_expected_cwd(self, expected_cwd: Option<AbsolutePathBuf>) -> bool {
        expected_cwd matches Some(expected) ==> {
            &&& primary_cwd(self.configuration.environments@) matches Some(cwd)
            &&& cwd@ == expected@
        }
    }

    /// Why a conditional start is not taken, as far as this is known before a
    /// turn is reserved for it.
    pub open spec fn rejection_before_reservation(
        self,
        request: TurnInputRequest,
        preconditions: PreconditionsView,
    ) -> Option<StartIfIdlePreconditionNotSubmittedReason> {
        if request.thread_settings != no_overrides() {
            Some(StartIfIdlePreconditionNotSubmittedReason::ThreadSettingsUnsupported)
        } else if preconditions.require_persistence && !self.persistent {
            Some(StartIfIdlePreconditionNotSubmittedReason::PersistenceDisabled)
        } else if self.plan_mode_rejects(request.input, preconditions.disallow_plan_mode) {
            Some(StartIfIdlePreconditionNotSubmittedReason::PlanMode)
        } else if self.has_trigger() {
            Some(StartIfIdlePreconditionNotSubmittedReason::PendingTriggerTurn)
        } else {
            None
        }
    }

    /// Why a conditional start is not taken after a turn was reserved for it.
    pub open spec fn rejection_after_reservation(self, preconditions: PreconditionsView) -> Option<
        StartIfIdlePreconditionNotSubmittedReason,
    > {
        if self.has_trigger() {
            Some(StartIfIdlePreconditionNotSubmittedReason::PendingTriggerTurn)
        } else if starting_first(self.configuration.environments@) {
            Some(StartIfIdlePreconditionNotSubmittedReason::EnvironmentNotReady)
        } else if !self.meets_expected_cwd(preconditions.expected_cwd) {
            Some(StartIfIdlePreconditionNotSubmittedReason::ExpectedCwdMismatch)
        } else {
            None
        }
    }

    /// Why a conditional start is not taken.
    pub open spec fn conditional_rejection(
        self,
        request: TurnInputRequest,
        preconditions: PreconditionsView,
    ) -> Option<StartIfIdlePreconditionNotSubmittedReason> {
        if self.rejection_before_reservation(request, preconditions) is Some {
            self.rejection_before_reservation(request, preconditions)
        } else if !self.is_idle() {
            Some(StartIfIdlePreconditionNotSubmittedReason::NotIdle)
        } else {
            self.rejection_after_reservation(preconditions)
        }
    }

    /// From `before`, a conditional start was answered with `submission`: either
    /// something spoke against it, which is said, and nothing has changed; or
    /// the turn `turn_id` has started with its input.
    pub open spec fn follows_conditional_start(
        self,
        before: Session,
        request: TurnInputRequest,
        preconditions: PreconditionsView,
        turn_id: String,
        submission: StartIfIdlePreconditionSubmission,
    ) -> bool {
        match before.conditional_rejection(request, preconditions) {
            Some(reason) => {
                &&& submission == (StartIfIdlePreconditionSubmission::NotSubmitted { reason })
                &&& self == before
            },
            None => {
                &&& submission == (StartIfIdlePreconditionSubmission::Started { turn_id })
                &&& self.starts(
                    before,
                    seq![request.input],
                    Some(request.context()),
                    no_overrides(),
                    turn_id,
                )
            },
        }
    }

    /// From `before`, a conditional start that passed the first look was
    /// answered with `submission`: a session that is busy stays as it was; a
    /// message that waits to start a turn got the turn `trigger_turn_id`;
    /// whatever else speaks against the start changes nothing; and if nothing
    /// does, the turn `turn_id` has started.
    pub open spec fn follows_reserved_start(
        self,
        before: Session,
        request: TurnInputRequest,
        preconditions: PreconditionsView,
        turn_id: String,
        trigger_turn_id: String,
        submission: StartIfIdlePreconditionSubmission,
    ) -> bool {
        if !before.is_idle() {
            &&& submission == (StartIfIdlePreconditionSubmission::NotSubmitted {
                reason: StartIfIdlePreconditionNotSubmittedReason::NotIdle,
            })
            &&& self == before
        } else {
            match before.rejection_after_reservation(preconditions) {
                Some(reason) => {
                    &&& submission == (StartIfIdlePreconditionSubmission::NotSubmitted { reason })
                    &&& if reason is PendingTriggerTurn {
                        self.starts(before, Seq::empty(), None, no_overrides(), trigger_turn_id)
                    } else {
                        self == before
                    }
                },
                None => {
                    &&& submission == (StartIfIdlePreconditionSubmission::Started { turn_id })
                    &&& self.starts(
                        before,
                        seq![request.input],
                        Some(request.context()),
                        request.thread_settings,
                        turn_id,
                    )
                },
            }
        }
    }

    /// A conditional start looked at the session as `first`, found it as
    /// `later` when it came to the reservation, and was answered with
    /// `submission`.
    pub open spec fn follows_windowed_start(
        self,
        first: Session,
        later: Session,
        request: TurnInputRequest,
        preconditions: PreconditionsView,
        turn_id: String,
        trigger_turn_id: String,
        submission: StartIfIdlePreconditionSubmission,
    ) -> bool {
        match first.rejection_before_reservation(request, preconditions) {
            Some(reason) => {
                &&& submission == (StartIfIdlePreconditionSubmission::NotSubmitted { reason })
                &&& self == later
            },
            None => self.follows_reserved_start(
                later,
                request,
                preconditions,
                turn_id,
                trigger_turn_id,
                submission,
            ),
        }
    }

    /// Whether a message waits to start a turn.
    pub fn has_trigger_turn_mailbox_items(&self) -> (found: bool)
        ensures
            found == self.has_trigger(),
    {
        for i in 0..self.mailbox.len()
            invariant
                forall|j: int|
                    0 <= j < i ==> !(#[trigger] self.mailbox@[j]).communication.trigger_turn,
        {
            if self.mailbox[i].communication.trigger_turn {
                assert(self.mailbox@[i as int].communication.trigger_turn);
                return true;
            }
        }
        false
    }

    /// Whether something was submitted to the active turn since it started.
    pub fn has_pending_input(&self) -> (found: bool)
        ensures
            found == (self.active_turn matches Some(active) && active.pending_input@.len() > 0),
    {
        match &self.active_turn {
            Some(active) => active.pending_input.len() > 0,
            None => false,
        }
    }

    /// The turn that is running.
    fn running_turn_id(&self) -> (turn_id: Option<String>)
        ensures
            turn_id == (match self.running_task() {
                Some(task) => Some(task.turn_id),
                None => None,
            }),
    {
        match &self.active_turn {
            Some(active) => match &active.task {
                Some(task) => Some(task.turn_id.clone()),
                None => None,
            },
            None => None,
        }
    }

    /// Puts a message into the mailbox.
    pub fn enqueue_mailbox_communication(
        &mut self,
        communication: InterAgentCommunication,
        parent_turn_id: Option<String>,
        root_turn_id: Option<String>,
    )
        ensures
            final(self).mailbox@ == old(self).mailbox@.push(
                MailboxItem { communication, parent_turn_id, root_turn_id },
            ),
            *final(self) == (Session { mailbox: final(self).mailbox, ..*old(self) }),
    {
        self.mailbox.push(MailboxItem { communication, parent_turn_id, root_turn_id });
    }

    /// Takes all messages out of the mailbox, the oldest first, for the turn
    /// that deals with them.
    pub fn take_mailbox_items(&mut self) -> (items: Vec<MailboxItem>)
        ensures
            items == old(self).mailbox,
            final(self).mailbox@ == Seq::<MailboxItem>::empty(),
            *final(self) == (Session { mailbox: final(self).mailbox, ..*old(self) }),
    {
        let mut items: Vec<MailboxItem> = Vec::new();
        std::mem::swap(&mut items, &mut self.mailbox);
        items
    }

    /// Makes a turn with a task the active one, in place of any other, and
    /// announces it.
    pub fn spawn_task(
        &mut self,
        turn_id: String,
        root_turn_id: Option<String>,
        input: Vec<TurnInput>,
        kind: TaskKind,
    )
        ensures
            final(self).runs(turn_id, root_turn_id, kind, input@, None),
            final(self).events@ == old(self).events@.push(SessionEvent::TurnStarted { turn_id }),
            *final(self) == (Session {
                active_turn: final(self).active_turn,
                events: final(self).events,
                ..*old(self)
            }),
    {
        self.spawn(turn_id, root_turn_id, input, None, kind);
    }

    /// Makes a turn with a task the active one, in place of any other, and
    /// announces it.
    fn spawn(
        &mut self,
        turn_id: String,
        root_turn_id: Option<String>,
        input: Vec<TurnInput>,
        context: Option<SubmissionContext>,
        kind: TaskKind,
    )
        ensures
            final(self).runs(turn_id, root_turn_id, kind, input@, context),
            final(self).events@ == old(self).events@.push(SessionEvent::TurnStarted { turn_id }),
            *final(self) == (Session {
                active_turn: final(self).active_turn,
                events: final(self).events,
                ..*old(self)
            }),
    {
        self.events.push(SessionEvent::TurnStarted { turn_id: turn_id.clone() });
        self.active_turn = Some(
            ActiveTurn {
                task: Some(
                    RunningTask {
                        turn_id,
                        root_turn_id,
                        kind,
                        input,
                        context,
                        cwd: first_ready_cwd(&self.configuration.environments),
                    },
                ),
                pending_input: Vec::new(),
            },
        );
    }

    /// Ends whatever is active.
    pub fn abort_all_tasks(&mut self)
        ensures
            *final(self) == (Session { active_turn: None, ..*old(self) }),
    {
        self.active_turn = None;
    }

    /// Ends the turn that is running, which leaves the session idle, and says
    /// which one it was and how it ended. Without a turn that is running
    /// there is nothing to end: a reservation stays.
    pub fn complete_turn(&mut self, end: TurnEnd) -> (event: Option<TurnCompleteEvent>)
        ensures
            match old(self).running_task() {
                Some(task) => {
                    &&& event == Some(end.of(task.turn_id))
                    &&& *final(self) == (Session { active_turn: None, ..*old(self) })
                },
                None => event is None && *final(self) == *old(self),
            },
    {
        match self.running_turn_id() {
            Some(turn_id) => {
                self.active_turn = None;
                Some(end.into_event(turn_id))
            },
            None => None,
        }
    }

    /// Changes the settings.
    fn apply_overrides(&mut self, overrides: ThreadSettingsOverrides)
        ensures
            final(self).applies(*old(self), overrides),
            *final(self) == (Session {
                configuration: final(self).configuration,
                mcp_refresh_pending: final(self).mcp_refresh_pending,
                ..*old(self)
            }),
    {
        let reviewer = self.configuration.approvals_reviewer;
        self.configuration.apply(overrides);
        if self.configuration.approvals_reviewer != reviewer {
            self.mcp_refresh_pending = true;
        }
    }

    /// Starts a regular turn with what was submitted.
    fn start_turn(&mut self, request: TurnInputRequest, turn_id: String)
        ensures
            final(self).starts(
                *old(self),
                seq![request.input],
                Some(request.context()),
                request.thread_settings,
                turn_id,
            ),
    {
        let (input, overrides, context) = request.into_parts();
        self.apply_overrides(overrides);
        if input.is_from_user() {
            self.connector_selection = Vec::new();
        }
        let mut items: Vec<TurnInput> = Vec::new();
        items.push(input);
        assert(items@ =~= seq![input]);
        assert(items@[0] == input);
        self.spawn(turn_id, None, items, Some(context), TaskKind::Regular);
    }

    /// Starts a regular turn for which nothing was submitted.
    fn start_turn_without_input(&mut self, overrides: ThreadSettingsOverrides, turn_id: String)
        ensures
            final(self).starts(*old(self), Seq::empty(), None, overrides, turn_id),
    {
        self.apply_overrides(overrides);
        self.spawn_task(turn_id, None, Vec::new(), TaskKind::Regular);
    }

    /// Puts what was submitted into the active turn.
    fn steer_turn(&mut self, request: TurnInputRequest)
        requires
            old(self).active_turn is Some,
        ensures
            final(self).steers(
                *old(self),
                request.input,
                request.context(),
                request.thread_settings,
            ),
    {
        let (input, overrides, context) = request.into_parts();
        self.apply_overrides(overrides);
        if let Some(active) = &mut self.active_turn {
            active.pending_input.push(PendingInput { input, context });
        }
    }

    /// Starts a turn for the messages that wait to start one, if there are any
    /// and the session is idle. Says whether it did.
    pub fn maybe_start_turn_for_pending_work(&mut self, turn_id: String) -> (started: bool)
        ensures
            started == (old(self).is_idle() && old(self).has_trigger()),
            started ==> final(self).starts(
                *old(self),
                Seq::empty(),
                None,
                no_overrides(),
                turn_id,
            ),
            !started ==> *final(self) == *old(self),
    {
        if self.active_turn.is_none() && self.has_trigger_turn_mailbox_items() {
            self.start_turn_without_input(ThreadSettingsOverrides::default(), turn_id);
            true
        } else {
            false
        }
    }

    /// Why a submission cannot join the turn of `task`.
    fn check_steerable(task: &RunningTask) -> (reason: Option<NotSubmittedReason>)
        ensures
            reason == Self::steer_rejection(*task),
    {
        match task.kind {
            TaskKind::Regular => None,
            TaskKind::Review => Some(
                NotSubmittedReason::ActiveTurnNotSteerable {
                    turn_kind: NonSteerableTurnKind::Review,
                },
            ),
            TaskKind::Compact => Some(
                NotSubmittedReason::ActiveTurnNotSteerable {
                    turn_kind: NonSteerableTurnKind::Compact,
                },
            ),
        }
    }

    /// Why a submission is not taken.
    fn check_submission(&self, input: &TurnInput, mode: TurnInputMode) -> (reason: Option<
        NotSubmittedReason,
    >)
        ensures
            reason == self.rejection(*input, mode),
    {
        let task = match &self.active_turn {
            Some(active) => active.task.as_ref(),
            None => None,
        };
        match mode {
            TurnInputMode::StartIfIdle => if self.configuration.collaboration_mode
                == ModeKind::Plan && !input.has_user_content() {
                Some(NotSubmittedReason::PlanMode)
            } else if self.has_trigger_turn_mailbox_items() {
                Some(NotSubmittedReason::PendingTriggerTurn)
            } else if self.active_turn.is_some() {
                Some(NotSubmittedReason::NotIdle)
            } else {
                None
            },
            TurnInputMode::StartOrSteer => match task {
                Some(task) => Self::check_steerable(task),
                None => None,
            },
            TurnInputMode::Steer { expected_turn_id } => match task {
                Some(task) => if task.turn_id != expected_turn_id {
                    Some(
                        NotSubmittedReason::ExpectedTurnMismatch {
                            expected: expected_turn_id,
                            actual: task.turn_id.clone(),
                        },
                    )
                } else {
                    Self::check_steerable(task)
                },
                None => Some(NotSubmittedReason::NoActiveTurn),
            },
        }
    }

    /// Takes a submission, or says why not and leaves the session as it was.
    /// It joins the turn that is running, except in start-only mode, and starts
    /// the turn `turn_id` if none is. A turn that starts takes a reservation
    /// over: whoever made it finds the session busy.
    pub fn handle(&mut self, request: TurnInputRequest, mode: TurnInputMode, turn_id: String) -> (submission:
        TurnInputSubmission)
        ensures
            match (old(self).rejection(request.input, mode), old(self).running_task()) {
                (Some(reason), _) => {
                    &&& submission == (TurnInputSubmission::NotSubmitted { reason })
                    &&& *final(self) == *old(self)
                },
                (None, Some(task)) => {
                    &&& submission == (TurnInputSubmission::Steered { turn_id: task.turn_id })
                    &&& final(self).steers(
                        *old(self),
                        request.input,
                        request.context(),
                        request.thread_settings,
                    )
                },
                (None, None) => {
                    &&& submission == (TurnInputSubmission::Started { turn_id })
                    &&& final(self).starts(
                        *old(self),
                        seq![request.input],
                        Some(request.context()),
                        request.thread_settings,
                        turn_id,
                    )
                },
            },
    {
        if let Some(reason) = self.check_submission(&request.input, mode) {
            return TurnInputSubmission::NotSubmitted { reason };
        }
        match self.running_turn_id() {
            Some(running) => {
                self.steer_turn(request);
                TurnInputSubmission::Steered { turn_id: running }
            },
            None => {
                self.start_turn(request, turn_id.clone());
                TurnInputSubmission::Started { turn_id }
            },
        }
    }

    /// Starts the turn `turn_id` again, without new input, in a session that is
    /// idle; leaves any other as it was.
    pub fn handle_recovery(&mut self, overrides: ThreadSettingsOverrides, turn_id: String) -> (submission:
        TurnInputSubmission)
        ensures
            if old(self).is_idle() {
                &&& submission == (TurnInputSubmission::Started { turn_id })
                &&& final(self).starts(*old(self), Seq::empty(), None, overrides, turn_id)
            } else {
                &&& submission == (TurnInputSubmission::NotSubmitted {
                    reason: NotSubmittedReason::NotIdle,
                })
                &&& *final(self) == *old(self)
            },
    {
        if self.active_turn.is_some() {
            return TurnInputSubmission::NotSubmitted { reason: NotSubmittedReason::NotIdle };
        }
        self.start_turn_without_input(overrides, turn_id.clone());
        TurnInputSubmission::Started { turn_id }
    }

    /// Says why a conditional start is not taken, as far as this is known
    /// before a turn is reserved for it.
    pub fn check_before_reservation(
        &self,
        request: &TurnInputRequest,
        preconditions: &StartIfIdlePreconditions,
    ) -> (reason: Option<StartIfIdlePreconditionNotSubmittedReason>)
        ensures
            reason == self.rejection_before_reservation(*request, preconditions@),
    {
        if !request.thread_settings.is_empty() {
            Some(StartIfIdlePreconditionNotSubmittedReason::ThreadSettingsUnsupported)
        } else if preconditions.requires_persistence() && !self.persistent {
            Some(StartIfIdlePreconditionNotSubmittedReason::PersistenceDisabled)
        } else if self.configuration.collaboration_mode == ModeKind::Plan && (
        preconditions.disallows_plan_mode() || !request.input.has_user_content()) {
            Some(StartIfIdlePreconditionNotSubmittedReason::PlanMode)
        } else if self.has_trigger_turn_mailbox_items() {
            Some(StartIfIdlePreconditionNotSubmittedReason::PendingTriggerTurn)
        } else {
            None
        }
    }

    /// Reserves the turn of an idle session. Says whether it did.
    pub fn reserve_idle_turn(&mut self) -> (reserved: bool)
        ensures
            reserved == old(self).is_idle(),
            reserved ==> (final(self).active_turn matches Some(active) && active.task is None
                && active.pending_input@ == Seq::<PendingInput>::empty()),
            reserved ==> *final(self) == (Session {
                active_turn: final(self).active_turn,
                ..*old(self)
            }),
            !reserved ==> *final(self) == *old(self),
    {
        if self.active_turn.is_some() {
            return false;
        }
        self.active_turn = Some(ActiveTurn { task: None, pending_input: Vec::new() });
        true
    }

    /// Says why a conditional start is not taken after a turn was reserved for
    /// it.
    fn check_after_reservation(&self, preconditions: &StartIfIdlePreconditions) -> (reason: Option<
        StartIfIdlePreconditionNotSubmittedReason,
    >)
        ensures
            reason == self.rejection_after_reservation(preconditions@),
    {
        if self.has_trigger_turn_mailbox_items() {
            return Some(StartIfIdlePreconditionNotSubmittedReason::PendingTriggerTurn);
        }
        if has_starting_first(&self.configuration.environments) {
            return Some(StartIfIdlePreconditionNotSubmittedReason::EnvironmentNotReady);
        }
        if let Some(expected) = preconditions.expected_cwd() {
            let matches = match first_ready_cwd(&self.configuration.environments) {
                Some(cwd) => cwd.same_path(expected),
                None => false,
            };
            if !matches {
                return Some(StartIfIdlePreconditionNotSubmittedReason::ExpectedCwdMismatch);
            }
        }
        None
    }

    /// Starts the turn that was reserved, or gives the reservation up and says
    /// why. What may have changed since the reservation is looked at here: a
    /// message that arrived in between goes first, and a reservation that was
    /// taken over or ended in between is not renewed.
    pub fn finish_reserved_start(
        &mut self,
        request: TurnInputRequest,
        preconditions: StartIfIdlePreconditions,
        turn_id: String,
    ) -> (outcome: ReservedStart)
        ensures
            if !old(self).is_reserved() {
                &&& outcome.submission == (StartIfIdlePreconditionSubmission::NotSubmitted {
                    reason: StartIfIdlePreconditionNotSubmittedReason::NotIdle,
                })
                &&& !outcome.start_pending_work
                &&& *final(self) == *old(self)
            } else {
                match old(self).rejection_after_reservation(preconditions@) {
                    Some(reason) => {
                        &&& outcome.submission == (StartIfIdlePreconditionSubmission::NotSubmitted {
                            reason,
                        })
                        &&& outcome.start_pending_work == (reason is PendingTriggerTurn)
                        &&& *final(self) == (Session { active_turn: None, ..*old(self) })
                    },
                    None => {
                        &&& outcome.submission == (StartIfIdlePreconditionSubmission::Started {
                            turn_id,
                        })
                        &&& !outcome.start_pending_work
                        &&& final(self).starts(
                            *old(self),
                            seq![request.input],
                            Some(request.context()),
                            request.thread_settings,
                            turn_id,
                        )
                    },
                }
            },
    {
        let reserved = match &self.active_turn {
            Some(active) => active.task.is_none(),
            None => false,
        };
        if !reserved {
            return ReservedStart {
                submission: StartIfIdlePreconditionSubmission::NotSubmitted {
                    reason: StartIfIdlePreconditionNotSubmittedReason::NotIdle,
                },
                start_pending_work: false,
            };
        }
        match self.check_after_reservation(&preconditions) {
            Some(reason) => {
                self.active_turn = None;
                let start_pending_work = match reason {
                    StartIfIdlePreconditionNotSubmittedReason::PendingTriggerTurn => true,
                    _ => false,
                };
                ReservedStart {
                    submission: StartIfIdlePreconditionSubmission::NotSubmitted { reason },
                    start_pending_work,
                }
            },
            None => {
                self.start_turn(request, turn_id.clone());
                ReservedStart {
                    submission: StartIfIdlePreconditionSubmission::Started { turn_id },
                    start_pending_work: false,
                }
            },
        }
    }

    /// Reserves the turn of an idle session and starts the turn `turn_id` in
    /// it, or says why not. A message that slipped in since the first look gets
    /// the turn `trigger_turn_id`.
    pub fn reserve_and_start(
        &mut self,
        request: TurnInputRequest,
        preconditions: StartIfIdlePreconditions,
        turn_id: String,
        trigger_turn_id: String,
    ) -> (submission: StartIfIdlePreconditionSubmission)
        ensures
            final(self).follows_reserved_start(
                *old(self),
                request,
                preconditions@,
                turn_id,
                trigger_turn_id,
                submission,
            ),
    {
        if !self.reserve_idle_turn() {
            return StartIfIdlePreconditionSubmission::NotSubmitted {
                reason: StartIfIdlePreconditionNotSubmittedReason::NotIdle,
            };
        }
        let outcome = self.finish_reserved_start(request, preconditions, turn_id);
        if outcome.start_pending_work {
            self.maybe_start_turn_for_pending_work(trigger_turn_id);
        }
        outcome.submission
    }

    /// Starts the turn `turn_id` if the session is idle and the preconditions
    /// hold. If not, says why and leaves the session as it was.
    pub fn start_if_idle_with_preconditions(
        &mut self,
        request: TurnInputRequest,
        preconditions: StartIfIdlePreconditions,
        turn_id: String,
    ) -> (submission: StartIfIdlePreconditionSubmission)
        ensures
            final(self).follows_conditional_start(
                *old(self),
                request,
                preconditions@,
                turn_id,
                submission,
            ),
    {
        if let Some(reason) = self.check_before_reservation(&request, &preconditions) {
            return StartIfIdlePreconditionSubmission::NotSubmitted { reason };
        }
        if !self.reserve_idle_turn() {
            return StartIfIdlePreconditionSubmission::NotSubmitted {
                reason: StartIfIdlePreconditionNotSubmittedReason::NotIdle,
            };
        }
        self.finish_reserved_start(request, preconditions, turn_id).submission
    }
}

} // verus!
