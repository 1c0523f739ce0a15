use gradio::json::JsonValue;
use gradio::space::{
    interpret_status_response, space_status_url, wake_outcome, wake_step, SpaceStatus,
    SpaceStatusRuntimeStage, WakeOutcome, WakeStep, MAX_WAKE_ATTEMPTS, WAKE_POLL_DELAY_MS,
};
use gradio::GradioError;

fn status_body(stage: &str) -> JsonValue {
    JsonValue::Obj(vec![
        (
            "runtime".to_owned(),
            JsonValue::Obj(vec![("stage".to_owned(), JsonValue::Str(stage.to_owned()))]),
        ),
        ("id".to_owned(), JsonValue::Str("a/b".to_owned())),
    ])
}

#[test]
fn stage_strings_parse_to_their_stages() {
    assert!(matches!(SpaceStatusRuntimeStage::parse("STOPPED"), SpaceStatusRuntimeStage::Stopped));
    assert!(matches!(SpaceStatusRuntimeStage::parse("SLEEPING"), SpaceStatusRuntimeStage::Sleeping));
    assert!(matches!(SpaceStatusRuntimeStage::parse("PAUSED"), SpaceStatusRuntimeStage::Paused));
    assert!(matches!(SpaceStatusRuntimeStage::parse("RUNNING"), SpaceStatusRuntimeStage::Running));
    assert!(matches!(
        SpaceStatusRuntimeStage::parse("RUNNING_BUILDING"),
        SpaceStatusRuntimeStage::RunningBuilding
    ));
    assert!(matches!(SpaceStatusRuntimeStage::parse("BUILDING"), SpaceStatusRuntimeStage::Building));
    assert!(matches!(
        SpaceStatusRuntimeStage::parse("APP_STARTING"),
        SpaceStatusRuntimeStage::AppStarting
    ));
    match SpaceStatusRuntimeStage::parse("SOMETHING_ELSE") {
        SpaceStatusRuntimeStage::Unknown(raw) => assert_eq!(raw, "SOMETHING_ELSE"),
        other => panic!("expected the unknown fallback, got {:?}", other),
    }
}

#[test]
fn running_on_first_poll_succeeds_with_zero_delay() {
    let r = wake_step(&SpaceStatusRuntimeStage::Running, 1, "a/b");
    assert!(matches!(r, WakeStep::Ready));
}

#[test]
fn sleeping_for_all_polls_times_out_never_succeeds() {
    let mut attempts: u64 = 0;
    loop {
        attempts += 1;
        match wake_step(&SpaceStatusRuntimeStage::Sleeping, attempts, "a/b") {
            WakeStep::Ready => panic!("a sleeping space must never wake successfully"),
            WakeStep::Retry { delay_ms } => {
                assert_eq!(delay_ms, WAKE_POLL_DELAY_MS);
                assert!(attempts < MAX_WAKE_ATTEMPTS);
            },
            WakeStep::GiveUp(e) => {
                assert_eq!(attempts, MAX_WAKE_ATTEMPTS);
                match e {
                    GradioError::SpaceUnavailable(m) => {
                        assert_eq!(m, "Space a/b is taking too long to start")
                    },
                    other => panic!("expected a space-unavailable error, got {:?}", other),
                }
                break;
            },
        }
    }
    assert_eq!(attempts, 12);
}

#[test]
fn paused_fails_immediately_without_spending_the_budget() {
    match wake_step(&SpaceStatusRuntimeStage::Paused, 1, "a/b") {
        WakeStep::GiveUp(GradioError::SpaceUnavailable(m)) => {
            assert_eq!(m, "Space a/b is paused by the author");
        },
        other => panic!("expected an immediate failure, got {:?}", other),
    }
}

#[test]
fn unknown_stage_fails_immediately() {
    let stage = SpaceStatusRuntimeStage::parse("NEW_STAGE");
    match wake_step(&stage, 1, "a/b") {
        WakeStep::GiveUp(GradioError::SpaceUnavailable(m)) => {
            assert_eq!(m, "Unknown runtime stage NEW_STAGE for space a/b");
        },
        other => panic!("expected an immediate failure, got {:?}", other),
    }
}

#[test]
fn status_body_decodes() {
    let st = SpaceStatus::from_json(&status_body("RUNNING")).unwrap();
    assert!(matches!(st.runtime.stage, SpaceStatusRuntimeStage::Running));
    assert_eq!(st.id, "a/b");
}

#[test]
fn bad_status_response_is_space_unavailable() {
    let e = interpret_status_response(false, Some(&status_body("RUNNING"))).unwrap_err();
    assert!(matches!(e, GradioError::SpaceUnavailable(_)));
    let e = interpret_status_response(true, None).unwrap_err();
    assert!(matches!(e, GradioError::SpaceUnavailable(_)));
    let e = interpret_status_response(true, Some(&JsonValue::Null)).unwrap_err();
    assert!(matches!(e, GradioError::SpaceUnavailable(_)));
}

#[test]
fn status_url_is_keyed_by_space_id() {
    assert_eq!(space_status_url("a/b"), "https://huggingface.co/api/spaces/a/b");
}

#[test]
fn wake_outcome_over_observed_stage_sequences() {
    let ready_first = vec![SpaceStatusRuntimeStage::Running];
    assert_eq!(wake_outcome(&ready_first), WakeOutcome::Success { polls: 1 });

    let all_sleeping: Vec<SpaceStatusRuntimeStage> =
        (0..12).map(|_| SpaceStatusRuntimeStage::Sleeping).collect();
    assert_eq!(
        wake_outcome(&all_sleeping),
        WakeOutcome::TimedOut { polls: MAX_WAKE_ATTEMPTS }
    );

    let paused_first = vec![SpaceStatusRuntimeStage::Paused, SpaceStatusRuntimeStage::Running];
    assert_eq!(wake_outcome(&paused_first), WakeOutcome::PausedSpace { polls: 1 });

    let wakes_late = vec![
        SpaceStatusRuntimeStage::Sleeping,
        SpaceStatusRuntimeStage::Building,
        SpaceStatusRuntimeStage::AppStarting,
        SpaceStatusRuntimeStage::RunningBuilding,
    ];
    assert_eq!(wake_outcome(&wakes_late), WakeOutcome::Success { polls: 4 });
}
