//! What the operations of the vocabulary do, in terms of what they are given and
//! what they give.

use vstd::prelude::*;

use crate::absolute_path::{AbsolutePathBuf, NotAbsolute};
use crate::environment::{
    first_ready_cwd, has_starting_first, is_first_ready, primary_cwd, primary_cwd_is_first_ready,
    TurnEnvironment,
};
use crate::error_code::{internal_error, invalid_request, JSONRPCErrorError};
use crate::turn_input::{
    into_core_items, ResponseItem, StartIfIdlePreconditions, SubmissionContext,
    ThreadSettingsOverrides, TurnInput, TurnInputRequest, UserInput, V2UserInput, W3cTraceContext,
};

verus! {

/// An item of a client becomes the same item for the thread.
pub proof fn item_stays_what_it_is(
    item: V2UserInput,
    core: UserInput,
)
    requires
        call_ensures(V2UserInput::into_core, (item,), core),
    ensures
        item matches V2UserInput::Text { text, text_elements } ==> core == (UserInput::Text {
            text,
            text_elements,
        }),
        item matches V2UserInput::Other { json } ==> core == (UserInput::Other { json }),
{
}

/// No item of the input is lost, added or moved.
pub proof fn no_item_is_lost(
    input: Vec<V2UserInput>,
    items: Vec<UserInput>,
)
    requires
        call_ensures(into_core_items, (input,), items),
    ensures
        items@.len() == input@.len(),
        forall|i: int|
            0 <= i < input@.len() ==> match #[trigger] input@[i] {
                V2UserInput::Text { text, text_elements } => items@[i] == (UserInput::Text {
                    text,
                    text_elements,
                }),
                V2UserInput::Other { json } => items@[i] == (UserInput::Other { json }),
            },
{
}

/// A message of the user's holds the whole text, once, and nothing else.
pub proof fn user_message_holds_its_text(
    text: &str,
    item: ResponseItem,
)
    requires
        call_ensures(ResponseItem::user_message, (text,), item),
    ensures
        item matches ResponseItem::Message {
            id: None,
            role,
            content,
            phase: None,
            internal_chat_message_metadata_passthrough: None,
        } && role@ == "user"@ && content@.len() == 1 && content@[0]->text@ == text@,
{
}

/// Typed is what comes from the user and has at least one item; a message that is
/// submitted as it stands is neither typed nor from the user.
pub proof fn typed_input_comes_from_the_user(
    input: TurnInput,
    typed: bool,
    from_user: bool,
)
    requires
        call_ensures(TurnInput::has_user_content, (&input,), typed),
        call_ensures(TurnInput::is_from_user, (&input,), from_user),
    ensures
        input is ResponseItem ==> !typed && !from_user,
        input matches TurnInput::UserInput { content, .. } ==> {
            &&& from_user
            &&& typed <==> content@.len() > 0
        },
{
}

/// Overrides are empty exactly when they name no setting, and those that are made
/// without further words name none.
pub proof fn empty_overrides_name_no_setting(
    overrides: ThreadSettingsOverrides,
    empty: bool,
    made: ThreadSettingsOverrides,
)
    requires
        call_ensures(ThreadSettingsOverrides::is_empty, (&overrides,), empty),
        call_ensures(<ThreadSettingsOverrides as Default>::default, (), made),
    ensures
        empty <==> {
            &&& overrides.environments is None
            &&& overrides.approval_policy is None
            &&& overrides.approvals_reviewer is None
            &&& overrides.sandbox_policy is None
            &&& overrides.permission_profile is None
            &&& overrides.summary is None
            &&& overrides.personality is None
            &&& overrides.collaboration_mode is None
        },
        made.environments is None,
        made.approval_policy is None,
        made.approvals_reviewer is None,
        made.sandbox_policy is None,
        made.permission_profile is None,
        made.summary is None,
        made.personality is None,
        made.collaboration_mode is None,
{
}

/// A submission that is made of its input asks for nothing else.
pub proof fn new_submission_is_its_input(
    input: TurnInput,
    request: TurnInputRequest,
)
    requires
        call_ensures(TurnInputRequest::new, (input,), request),
    ensures
        request.input == input,
        request.thread_settings.environments is None,
        request.thread_settings.approval_policy is None,
        request.thread_settings.approvals_reviewer is None,
        request.thread_settings.sandbox_policy is None,
        request.thread_settings.permission_profile is None,
        request.thread_settings.summary is None,
        request.thread_settings.personality is None,
        request.thread_settings.collaboration_mode is None,
        request.additional_context@.dom() == Set::<String>::empty(),
        request.responsesapi_client_metadata is None,
        request.trace is None,
{
}

/// A submission of user input holds all of it, without a client's id, and asks for
/// nothing else.
pub proof fn user_submission_is_its_content(
    content: Vec<UserInput>,
    request: TurnInputRequest,
)
    requires
        call_ensures(TurnInputRequest::user_input, (content,), request),
    ensures
        request.input matches TurnInput::UserInput { content: held, client_id } && held == content
            && client_id is None,
        request.thread_settings.environments is None,
        request.thread_settings.approval_policy is None,
        request.thread_settings.approvals_reviewer is None,
        request.thread_settings.sandbox_policy is None,
        request.thread_settings.permission_profile is None,
        request.thread_settings.summary is None,
        request.thread_settings.personality is None,
        request.thread_settings.collaboration_mode is None,
        request.additional_context@.dom() == Set::<String>::empty(),
        request.responsesapi_client_metadata is None,
        request.trace is None,
{
}

/// To name settings, or a trace, replaces those and leaves the rest of the submission.
pub proof fn named_parts_replace_their_own(
    request: TurnInputRequest,
    thread_settings: ThreadSettingsOverrides,
    trace: Option<W3cTraceContext>,
    with_settings: TurnInputRequest,
    with_trace: TurnInputRequest,
)
    requires
        call_ensures(
            TurnInputRequest::with_thread_settings,
            (request, thread_settings),
            with_settings,
        ),
        call_ensures(TurnInputRequest::with_trace, (request, trace), with_trace),
    ensures
        with_settings.thread_settings == thread_settings,
        with_settings.trace == request.trace,
        with_trace.thread_settings == request.thread_settings,
        with_trace.trace == trace,
        with_settings.input == request.input,
        with_settings.start == request.start,
        with_settings.additional_context == request.additional_context,
        with_settings.responsesapi_client_metadata == request.responsesapi_client_metadata,
        with_trace.input == request.input,
        with_trace.start == request.start,
        with_trace.additional_context == request.additional_context,
        with_trace.responsesapi_client_metadata == request.responsesapi_client_metadata,
{
}

/// A submission is taken apart without loss.
pub proof fn parts_make_up_the_submission(
    request: TurnInputRequest,
    parts: (TurnInput, ThreadSettingsOverrides, SubmissionContext),
)
    requires
        call_ensures(TurnInputRequest::into_parts, (request,), parts),
    ensures
        parts.0 == request.input,
        parts.1 == request.thread_settings,
        parts.2.start == request.start,
        parts.2.additional_context == request.additional_context,
        parts.2.responsesapi_client_metadata == request.responsesapi_client_metadata,
        parts.2.trace == request.trace,
{
}

/// Demands that are made without further words demand nothing.
pub proof fn default_demands_nothing(
    preconditions: StartIfIdlePreconditions,
    directory: Option<&AbsolutePathBuf>,
    persistence: bool,
    plan_mode: bool,
)
    requires
        call_ensures(<StartIfIdlePreconditions as Default>::default, (), preconditions),
        call_ensures(StartIfIdlePreconditions::expected_cwd, (&preconditions,), directory),
        call_ensures(
            StartIfIdlePreconditions::requires_persistence,
            (&preconditions,),
            persistence,
        ),
        call_ensures(StartIfIdlePreconditions::disallows_plan_mode, (&preconditions,), plan_mode),
    ensures
        directory is None,
        !persistence,
        !plan_mode,
{
}

/// To demand a directory replaces the one that was demanded and leaves the other
/// demands.
pub proof fn demanded_directory_is_kept(
    preconditions: StartIfIdlePreconditions,
    demanded: StartIfIdlePreconditions,
    directory: Option<&AbsolutePathBuf>,
    persistence: bool,
    plan_mode: bool,
    new_directory: Option<&AbsolutePathBuf>,
    new_persistence: bool,
    new_plan_mode: bool,
    expected: AbsolutePathBuf,
)
    requires
        call_ensures(
            StartIfIdlePreconditions::with_expected_cwd,
            (preconditions, expected),
            demanded,
        ),
        call_ensures(StartIfIdlePreconditions::expected_cwd, (&preconditions,), directory),
        call_ensures(
            StartIfIdlePreconditions::requires_persistence,
            (&preconditions,),
            persistence,
        ),
        call_ensures(StartIfIdlePreconditions::disallows_plan_mode, (&preconditions,), plan_mode),
        call_ensures(StartIfIdlePreconditions::expected_cwd, (&demanded,), new_directory),
        call_ensures(
            StartIfIdlePreconditions::requires_persistence,
            (&demanded,),
            new_persistence,
        ),
        call_ensures(StartIfIdlePreconditions::disallows_plan_mode, (&demanded,), new_plan_mode),
    ensures
        new_directory matches Some(kept) && *kept == expected,
        new_persistence == persistence,
        new_plan_mode == plan_mode,
{
}

/// To demand a stored thread leaves the other demands.
pub proof fn demanded_persistence_is_kept(
    preconditions: StartIfIdlePreconditions,
    demanded: StartIfIdlePreconditions,
    directory: Option<&AbsolutePathBuf>,
    persistence: bool,
    plan_mode: bool,
    new_directory: Option<&AbsolutePathBuf>,
    new_persistence: bool,
    new_plan_mode: bool,
)
    requires
        call_ensures(StartIfIdlePreconditions::require_persistence, (preconditions,), demanded),
        call_ensures(StartIfIdlePreconditions::expected_cwd, (&preconditions,), directory),
        call_ensures(
            StartIfIdlePreconditions::requires_persistence,
            (&preconditions,),
            persistence,
        ),
        call_ensures(StartIfIdlePreconditions::disallows_plan_mode, (&preconditions,), plan_mode),
        call_ensures(StartIfIdlePreconditions::expected_cwd, (&demanded,), new_directory),
        call_ensures(
            StartIfIdlePreconditions::requires_persistence,
            (&demanded,),
            new_persistence,
        ),
        call_ensures(StartIfIdlePreconditions::disallows_plan_mode, (&demanded,), new_plan_mode),
    ensures
        new_directory == directory,
        new_persistence,
        new_plan_mode == plan_mode,
{
}

/// To rule plan mode out leaves the other demands.
pub proof fn demanded_mode_is_kept(
    preconditions: StartIfIdlePreconditions,
    demanded: StartIfIdlePreconditions,
    directory: Option<&AbsolutePathBuf>,
    persistence: bool,
    plan_mode: bool,
    new_directory: Option<&AbsolutePathBuf>,
    new_persistence: bool,
    new_plan_mode: bool,
)
    requires
        call_ensures(StartIfIdlePreconditions::disallow_plan_mode, (preconditions,), demanded),
        call_ensures(StartIfIdlePreconditions::expected_cwd, (&preconditions,), directory),
        call_ensures(
            StartIfIdlePreconditions::requires_persistence,
            (&preconditions,),
            persistence,
        ),
        call_ensures(StartIfIdlePreconditions::disallows_plan_mode, (&preconditions,), plan_mode),
        call_ensures(StartIfIdlePreconditions::expected_cwd, (&demanded,), new_directory),
        call_ensures(
            StartIfIdlePreconditions::requires_persistence,
            (&demanded,),
            new_persistence,
        ),
        call_ensures(StartIfIdlePreconditions::disallows_plan_mode, (&demanded,), new_plan_mode),
    ensures
        new_directory == directory,
        new_persistence == persistence,
        new_plan_mode,
{
}

/// A path is taken exactly when it starts at a root, at the root of a drive, or at a
/// share; a text that is not taken is handed back whole.
pub proof fn rooted_paths_are_taken(
    text: &str,
    result: Result<AbsolutePathBuf, NotAbsolute>,
)
    requires
        call_ensures(AbsolutePathBuf::from_absolute_path, (text,), result),
    ensures
        result is Ok <==> {
            ||| text@.len() >= 1 && text@[0] == '/'
            ||| text@.len() >= 2 && text@[0] == '\\' && text@[1] == '\\'
            ||| text@.len() >= 3 && ('a' <= text@[0] <= 'z' || 'A' <= text@[0] <= 'Z') && text@[1]
                == ':' && (text@[2] == '/' || text@[2] == '\\')
        },
        result matches Err(rejected) ==> rejected.path@ == text@,
{
}

/// A path that was taken reads as it was written, and so does a copy of it.
pub proof fn paths_read_as_written(
    text: &str,
    path: AbsolutePathBuf,
    read: &str,
    copy: AbsolutePathBuf,
    copy_read: &str,
)
    requires
        call_ensures(AbsolutePathBuf::from_absolute_path, (text,), Ok(path)),
        call_ensures(AbsolutePathBuf::as_str, (&path,), read),
        call_ensures(<AbsolutePathBuf as Clone>::clone, (&path,), copy),
        call_ensures(AbsolutePathBuf::as_str, (&copy,), copy_read),
    ensures
        read@ == text@,
        copy_read@ == text@,
{
}

/// Two paths are the same exactly when they are written alike.
pub proof fn same_paths_are_written_alike(
    one: AbsolutePathBuf,
    one_read: &str,
    other: AbsolutePathBuf,
    other_read: &str,
    same: bool,
)
    requires
        call_ensures(AbsolutePathBuf::as_str, (&one,), one_read),
        call_ensures(AbsolutePathBuf::as_str, (&other,), other_read),
        call_ensures(AbsolutePathBuf::same_path, (&one, &other), same),
    ensures
        same <==> one_read@ == other_read@,
        same <==> one@ == other@,
{
}

/// An error that is made says the whole message, under the code of whom it blames,
/// and nothing else; a copy says the same.
pub proof fn errors_say_their_message(
    message: String,
    blaming_client: JSONRPCErrorError,
    blaming_server: JSONRPCErrorError,
    copy: JSONRPCErrorError,
)
    requires
        call_ensures(invalid_request, (message,), blaming_client),
        call_ensures(internal_error, (message,), blaming_server),
        call_ensures(<JSONRPCErrorError as Clone>::clone, (&blaming_client,), copy),
    ensures
        blaming_client.code == -32600,
        blaming_client.message@ == message@,
        blaming_client.data is None,
        blaming_server.code == -32603,
        blaming_server.message@ == message@,
        blaming_server.data is None,
        copy == blaming_client,
{
}

/// The directory to work in is that of the first environment that is ready.
pub proof fn first_ready_environment_is_worked_in(
    environments: Vec<TurnEnvironment>,
    cwd: Option<AbsolutePathBuf>,
    p: int,
)
    requires
        call_ensures(first_ready_cwd, (&environments,), cwd),
        0 <= p < environments@.len(),
        environments@[p].readiness is Ready,
        forall|j: int| 0 <= j < p ==> !(#[trigger] environments@[j].readiness is Ready),
    ensures
        cwd == Some(environments@[p].cwd),
{
    primary_cwd_is_first_ready(environments@);
    assert(is_first_ready(environments@, p));
    assert(primary_cwd(environments@) == Some(environments@[p].cwd));
}

/// Where no environment is ready, there is no directory to work in.
pub proof fn nowhere_to_work_without_a_ready_environment(
    environments: Vec<TurnEnvironment>,
    cwd: Option<AbsolutePathBuf>,
)
    requires
        call_ensures(first_ready_cwd, (&environments,), cwd),
        forall|j: int|
            0 <= j < environments@.len() ==> !(#[trigger] environments@[j].readiness is Ready),
    ensures
        cwd is None,
{
    primary_cwd_is_first_ready(environments@);
}

/// An environment that is starting is waited for if none before it is ready.
pub proof fn starting_environment_is_waited_for(
    environments: Vec<TurnEnvironment>,
    found: bool,
    i: int,
)
    requires
        call_ensures(has_starting_first, (&environments,), found),
        0 <= i < environments@.len(),
        environments@[i].readiness is Starting,
        forall|j: int| 0 <= j < i ==> !(#[trigger] environments@[j].readiness is Ready),
    ensures
        found,
{
}

/// Nothing is waited for once an environment is ready with only unknown ones before
/// it, nor where all are unknown.
pub proof fn settled_environments_are_not_waited_for(
    environments: Vec<TurnEnvironment>,
    found: bool,
    r: int,
)
    requires
        call_ensures(has_starting_first, (&environments,), found),
        0 <= r <= environments@.len(),
        forall|j: int| 0 <= j < r ==> (#[trigger] environments@[j]).readiness is Unknown,
        r < environments@.len() ==> environments@[r].readiness is Ready,
    ensures
        !found,
{
}

} // verus!
