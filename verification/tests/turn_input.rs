use std::collections::BTreeMap;

use turn_admission::absolute_path::{AbsolutePathBuf, NotAbsolute};
use turn_admission::turn_input::{
    into_core_items, ApprovalsReviewer, AskForApproval, ContentItem, ModeKind, ResponseItem,
    StartIfIdlePreconditions, TextElement, ThreadSettingsOverrides, TurnInput, TurnInputRequest,
    TurnStartOptions, UserInput, V2UserInput, W3cTraceContext,
};

#[test]
fn turn_input_request_literals_remain_source_compatible() {
    let _request = TurnInputRequest {
        input: TurnInput::UserInput {
            content: Vec::new(),
            client_id: None,
        },
        thread_settings: ThreadSettingsOverrides::default(),
        start: TurnStartOptions::default(),
        additional_context: BTreeMap::new(),
        responsesapi_client_metadata: None,
        trace: None,
    };
}

#[test]
fn start_if_idle_preconditions_construct_through_public_builder_surface() {
    let workspace = tempfile::tempdir().expect("create workspace");
    let path = workspace.path().join("expected-cwd");
    let expected_cwd =
        AbsolutePathBuf::from_absolute_path(path.to_str().expect("utf-8 path")).expect("absolute cwd");
    let defaults = StartIfIdlePreconditions::default();
    assert_eq!(defaults.expected_cwd(), None);
    assert!(!defaults.requires_persistence());
    assert!(!defaults.disallows_plan_mode());

    let preconditions = StartIfIdlePreconditions::default()
        .with_expected_cwd(expected_cwd.clone())
        .require_persistence()
        .disallow_plan_mode();

    assert_eq!(preconditions.expected_cwd(), Some(&expected_cwd));
    assert!(preconditions.requires_persistence());
    assert!(preconditions.disallows_plan_mode());
}

#[test]
fn each_builder_sets_its_own_demand_only() {
    let cwd = AbsolutePathBuf::from_absolute_path("/work").expect("absolute cwd");
    let only_cwd = StartIfIdlePreconditions::default().with_expected_cwd(cwd.clone());
    assert_eq!(only_cwd.expected_cwd(), Some(&cwd));
    assert!(!only_cwd.requires_persistence());
    assert!(!only_cwd.disallows_plan_mode());

    let only_persistence = StartIfIdlePreconditions::default().require_persistence();
    assert_eq!(only_persistence.expected_cwd(), None);
    assert!(only_persistence.requires_persistence());
    assert!(!only_persistence.disallows_plan_mode());

    let only_plan = StartIfIdlePreconditions::default().disallow_plan_mode();
    assert_eq!(only_plan.expected_cwd(), None);
    assert!(!only_plan.requires_persistence());
    assert!(only_plan.disallows_plan_mode());

    let replaced = only_cwd.with_expected_cwd(
        AbsolutePathBuf::from_absolute_path("/elsewhere").expect("absolute cwd"),
    );
    assert_eq!(
        replaced.expected_cwd().map(|path| path.as_str()),
        Some("/elsewhere")
    );
}

#[test]
fn absolute_paths_start_at_the_root() {
    let path = AbsolutePathBuf::from_absolute_path("/tmp/other-cwd").expect("absolute cwd");
    assert_eq!(path.as_str(), "/tmp/other-cwd");
    assert!(path.same_path(&path.clone()));
    let root = AbsolutePathBuf::from_absolute_path("/").expect("the root is absolute");
    assert!(!path.same_path(&root));
    for windows in ["C:\\work", "c:/work", "z:\\", "\\\\server\\share"] {
        let path = AbsolutePathBuf::from_absolute_path(windows).expect("absolute cwd");
        assert_eq!(path.as_str(), windows);
    }
    for relative in [
        "", "tmp", "./tmp", "~/tmp", "C:", "C:work", "\\work", "\\", "1:\\work", "CC:\\work",
    ] {
        assert_eq!(
            AbsolutePathBuf::from_absolute_path(relative),
            Err(NotAbsolute {
                path: relative.to_string(),
            })
        );
    }
}

#[test]
fn input_is_mapped_item_by_item_in_order() {
    let element = TextElement {
        json: "{\"start\":0}".to_string(),
    };
    let items = into_core_items(vec![
        V2UserInput::Text {
            text: "first".to_string(),
            text_elements: vec![element.clone()],
        },
        V2UserInput::Other {
            json: "{\"type\":\"image\"}".to_string(),
        },
        V2UserInput::Text {
            text: "last".to_string(),
            text_elements: Vec::new(),
        },
    ]);
    assert_eq!(
        items,
        vec![
            UserInput::Text {
                text: "first".to_string(),
                text_elements: vec![element],
            },
            UserInput::Other {
                json: "{\"type\":\"image\"}".to_string(),
            },
            UserInput::Text {
                text: "last".to_string(),
                text_elements: Vec::new(),
            },
        ]
    );
    assert_eq!(into_core_items(Vec::new()), Vec::new());
}

#[test]
fn user_message_holds_the_text_alone() {
    assert_eq!(
        ResponseItem::user_message("synthetic idle input"),
        ResponseItem::Message {
            id: None,
            role: "user".to_string(),
            content: vec![ContentItem::InputText {
                text: "synthetic idle input".to_string(),
            }],
            phase: None,
            internal_chat_message_metadata_passthrough: None,
        }
    );
}

#[test]
fn overrides_are_empty_unless_a_field_is_set() {
    assert!(ThreadSettingsOverrides::default().is_empty());
    let set = [
        ThreadSettingsOverrides {
            environments: Some(Vec::new()),
            ..Default::default()
        },
        ThreadSettingsOverrides {
            approval_policy: Some(AskForApproval::Never),
            ..Default::default()
        },
        ThreadSettingsOverrides {
            approvals_reviewer: Some(ApprovalsReviewer::AutoReview),
            ..Default::default()
        },
        ThreadSettingsOverrides {
            sandbox_policy: Some("\"read-only\"".to_string()),
            ..Default::default()
        },
        ThreadSettingsOverrides {
            permission_profile: Some("\"read-only\"".to_string()),
            ..Default::default()
        },
        ThreadSettingsOverrides {
            summary: Some("\"auto\"".to_string()),
            ..Default::default()
        },
        ThreadSettingsOverrides {
            personality: Some("\"friendly\"".to_string()),
            ..Default::default()
        },
        ThreadSettingsOverrides {
            collaboration_mode: Some(ModeKind::Default),
            ..Default::default()
        },
    ];
    for overrides in set {
        assert!(!overrides.is_empty());
    }
}

#[test]
fn request_builders_keep_the_rest() {
    let content = vec![UserInput::Other {
        json: "{}".to_string(),
    }];
    let trace = W3cTraceContext {
        traceparent: Some("00-1-2-01".to_string()),
        tracestate: None,
    };
    let request = TurnInputRequest::user_input(content.clone())
        .with_thread_settings(ThreadSettingsOverrides {
            approval_policy: Some(AskForApproval::Never),
            ..Default::default()
        })
        .with_trace(Some(trace.clone()));
    assert_eq!(
        request,
        TurnInputRequest {
            input: TurnInput::UserInput {
                content,
                client_id: None,
            },
            thread_settings: ThreadSettingsOverrides {
                approval_policy: Some(AskForApproval::Never),
                ..Default::default()
            },
            start: TurnStartOptions::default(),
            additional_context: BTreeMap::new(),
            responsesapi_client_metadata: None,
            trace: Some(trace),
        }
    );
    assert!(!TurnInputRequest::user_input(Vec::new()).input.has_user_content());
    assert!(request.input.has_user_content());
    assert!(!TurnInput::ResponseItem(ResponseItem::user_message("x")).has_user_content());
}
