//! The wake-up poller for hosted applications that may be asleep: the stage
//! taxonomy reported by the hosting service, the decision taken after each
//! poll, and a model of the whole bounded polling loop.

use vstd::prelude::*;

verus! {

use crate::error::GradioError;
use crate::error::spec_message;
use crate::json::JsonValue;
use crate::json::JsonModel;
use crate::json::spec_get;
use crate::strutil::str_eq;
use crate::strutil::concat_str;
use vstd::string::StringExecFns;

/// The most polls the wake-up loop makes before giving up.
pub const MAX_WAKE_ATTEMPTS: u64 = 12;

/// The fixed delay between two polls, in milliseconds.
pub const WAKE_POLL_DELAY_MS: u64 = 5000;

/// The runtime stage of a hosted space, plus an open fallback for stages
/// this client does not know.
#[derive(Clone, Debug)]
pub enum SpaceStatusRuntimeStage {
    Stopped,
    Sleeping,
    Paused,
    Running,
    RunningBuilding,
    Building,
    AppStarting,
    Unknown(String),
}

/// The runtime block of a space status report.
#[derive(Clone, Debug)]
pub struct SpaceStatusRuntime {
    pub stage: SpaceStatusRuntimeStage,
}

/// A space status report: the runtime stage and the space's public id.
#[derive(Clone, Debug)]
pub struct SpaceStatus {
    pub runtime: SpaceStatusRuntime,
    pub id: String,
}

/// Stages on which the wake-up loop returns success at once.
pub open spec fn spec_stage_ready(st: SpaceStatusRuntimeStage) -> bool {
    st is Running || st is RunningBuilding
}

/// Stages on which the space is not yet ready and polling goes on.
pub open spec fn spec_stage_pending(st: SpaceStatusRuntimeStage) -> bool {
    st is Stopped || st is Sleeping || st is Building || st is AppStarting
}

/// Whether `s` is one of the stage strings this client recognizes.
pub open spec fn spec_known_stage_text(s: Seq<char>) -> bool {
    ||| s == "STOPPED"@
    ||| s == "SLEEPING"@
    ||| s == "PAUSED"@
    ||| s == "RUNNING"@
    ||| s == "RUNNING_BUILDING"@
    ||| s == "BUILDING"@
    ||| s == "APP_STARTING"@
}

/// `st` is exactly the stage that the wire string `s` names; unknown
/// strings keep their raw text.
pub open spec fn spec_stage_of(st: SpaceStatusRuntimeStage, s: Seq<char>) -> bool {
    match st {
        SpaceStatusRuntimeStage::Stopped => s == "STOPPED"@,
        SpaceStatusRuntimeStage::Sleeping => s == "SLEEPING"@,
        SpaceStatusRuntimeStage::Paused => s == "PAUSED"@,
        SpaceStatusRuntimeStage::Running => s == "RUNNING"@,
        SpaceStatusRuntimeStage::RunningBuilding => s == "RUNNING_BUILDING"@,
        SpaceStatusRuntimeStage::Building => s == "BUILDING"@,
        SpaceStatusRuntimeStage::AppStarting => s == "APP_STARTING"@,
        SpaceStatusRuntimeStage::Unknown(t) => t@ == s && !spec_known_stage_text(s),
    }
}

impl SpaceStatusRuntimeStage {
    /// Read a stage from its wire string.
    pub fn parse(s: &str) -> (r: Self)
        ensures
            spec_stage_of(r, s@),
    {
        if str_eq(s, "STOPPED") {
            SpaceStatusRuntimeStage::Stopped
        } else if str_eq(s, "SLEEPING") {
            SpaceStatusRuntimeStage::Sleeping
        } else if str_eq(s, "PAUSED") {
            SpaceStatusRuntimeStage::Paused
        } else if str_eq(s, "RUNNING") {
            SpaceStatusRuntimeStage::Running
        } else if str_eq(s, "RUNNING_BUILDING") {
            SpaceStatusRuntimeStage::RunningBuilding
        } else if str_eq(s, "BUILDING") {
            SpaceStatusRuntimeStage::Building
        } else if str_eq(s, "APP_STARTING") {
            SpaceStatusRuntimeStage::AppStarting
        } else {
            SpaceStatusRuntimeStage::Unknown(s.to_owned())
        }
    }
}

/// The stage string and space id carried by a status report body, when it
/// has the expected shape.
pub open spec fn spec_status_fields(m: JsonModel) -> Option<(Seq<char>, Seq<char>)> {
    match spec_get(m, "runtime"@) {
        Some(rt) => match spec_get(rt, "stage"@) {
            Some(st) => match st {
                JsonModel::Str(stage_text) => match spec_get(m, "id"@) {
                    Some(idv) => match idv {
                        JsonModel::Str(id_text) => Some((stage_text, id_text)),
                        _ => None,
                    },
                    None => None,
                },
                _ => None,
            },
            None => None,
        },
        None => None,
    }
}

impl SpaceStatus {
    /// Decode a status report body: an object with `runtime.stage` and `id`.
    pub fn from_json(v: &JsonValue) -> (r: Option<SpaceStatus>)
        ensures
            match r {
                Some(st) => spec_status_fields(v@) matches Some((stage_text, id_text))
                    && spec_stage_of(st.runtime.stage, stage_text) && st.id@ == id_text,
                None => spec_status_fields(v@) is None,
            },
    {
        let rt = match v.get("runtime") {
            Some(rt) => rt,
            None => {
                return None;
            },
        };
        let stage_text = match rt.get("stage") {
            Some(st) => match st.as_str() {
                Some(t) => t,
                None => {
                    return None;
                },
            },
            None => {
                return None;
            },
        };
        let id_text = match v.get("id") {
            Some(idv) => match idv.as_str() {
                Some(t) => t,
                None => {
                    return None;
                },
            },
            None => {
                return None;
            },
        };
        Some(
            SpaceStatus {
                runtime: SpaceStatusRuntime {
                    stage: SpaceStatusRuntimeStage::parse(stage_text.as_str()),
                },
                id: id_text.clone(),
            },
        )
    }
}

/// The absolute status endpoint polled for a space.
pub fn space_status_url(space_id: &str) -> (r: String)
    ensures
        r@ == "https://huggingface.co/api/spaces/"@ + space_id@,
{
    concat_str("https://huggingface.co/api/spaces/", space_id)
}

/// Interpret one status response: a non-success status or a malformed body
/// is fatal, anything else is the decoded report.
pub fn interpret_status_response(status_ok: bool, body: Option<&JsonValue>) -> (r: Result<
    SpaceStatus,
    GradioError,
>)
    ensures
        match r {
            Ok(st) => {
                &&& status_ok
                &&& body matches Some(b) && spec_status_fields(b@) matches Some(
                    (stage_text, id_text),
                ) && spec_stage_of(st.runtime.stage, stage_text) && st.id@ == id_text
            },
            Err(e) => {
                &&& e is SpaceUnavailable
                &&& (!status_ok || body is None || (body matches Some(b) && spec_status_fields(b@)
                    is None))
            },
        },
{
    if !status_ok {
        return Err(GradioError::SpaceUnavailable("Could not get space status".to_owned()));
    }
    match body {
        None => Err(GradioError::SpaceUnavailable("Could not get space status".to_owned())),
        Some(v) => match SpaceStatus::from_json(v) {
            Some(st) => Ok(st),
            None => Err(GradioError::SpaceUnavailable("Could not get space status".to_owned())),
        },
    }
}

/// What the wake-up loop does after one poll.
#[derive(Debug)]
pub enum WakeStep {
    /// The space is running: waking succeeded, with no further delay.
    Ready,
    /// Not ready yet and budget remains: wait this many milliseconds and
    /// poll again.
    Retry { delay_ms: u64 },
    /// Waking failed: paused, an unrecognized stage, or the budget is spent.
    GiveUp(GradioError),
}

/// The decision after the poll numbered `attempts` (1-based) reported
/// `stage`: ready stages succeed at once; paused and unrecognized stages
/// are fatal without further polling; pending stages retry after a fixed
/// delay until the attempt budget is spent, which is a distinct timeout
/// failure.
pub fn wake_step(stage: &SpaceStatusRuntimeStage, attempts: u64, space_id: &str) -> (r: WakeStep)
    requires
        attempts >= 1,
    ensures
        spec_stage_ready(*stage) ==> r is Ready,
        *stage is Paused ==> (r matches WakeStep::GiveUp(e) && e is SpaceUnavailable
            && spec_message(e) == "Space "@ + space_id@ + " is paused by the author"@),
        *stage matches SpaceStatusRuntimeStage::Unknown(t) ==> (r matches WakeStep::GiveUp(e)
            && e is SpaceUnavailable && spec_message(e) == "Unknown runtime stage "@ + t@
            + " for space "@ + space_id@),
        spec_stage_pending(*stage) && attempts >= MAX_WAKE_ATTEMPTS ==> (r
            matches WakeStep::GiveUp(e) && e is SpaceUnavailable && spec_message(e) == "Space "@
            + space_id@ + " is taking too long to start"@),
        spec_stage_pending(*stage) && attempts < MAX_WAKE_ATTEMPTS ==> (r matches WakeStep::Retry {
            delay_ms,
        } && delay_ms == WAKE_POLL_DELAY_MS),
{
    match stage {
        SpaceStatusRuntimeStage::Running => WakeStep::Ready,
        SpaceStatusRuntimeStage::RunningBuilding => WakeStep::Ready,
        SpaceStatusRuntimeStage::Paused => {
            let mut m: String = concat_str("Space ", space_id);
            m.append(" is paused by the author");
            proof {
                assert(m@ =~= "Space "@ + space_id@ + " is paused by the author"@);
            }
            WakeStep::GiveUp(GradioError::SpaceUnavailable(m))
        },
        SpaceStatusRuntimeStage::Unknown(t) => {
            let mut m: String = concat_str("Unknown runtime stage ", t.as_str());
            m.append(" for space ");
            m.append(space_id);
            proof {
                assert(m@ =~= "Unknown runtime stage "@ + t@ + " for space "@ + space_id@);
            }
            WakeStep::GiveUp(GradioError::SpaceUnavailable(m))
        },
        _ => {
            if attempts >= MAX_WAKE_ATTEMPTS {
                let mut m: String = concat_str("Space ", space_id);
                m.append(" is taking too long to start");
                proof {
                    assert(m@ =~= "Space "@ + space_id@ + " is taking too long to start"@);
                }
                WakeStep::GiveUp(GradioError::SpaceUnavailable(m))
            } else {
                WakeStep::Retry { delay_ms: WAKE_POLL_DELAY_MS }
            }
        },
    }
}

/// How a whole wake-up loop run ends; `polls` counts the status fetches
/// made, so `polls - 1` is the number of fixed delays slept.
#[derive(Debug, PartialEq, Eq, Structural)]
pub enum WakeOutcome {
    /// A ready stage was seen on poll number `polls`.
    Success { polls: u64 },
    /// The space is paused by its author: fatal at once.
    PausedSpace { polls: u64 },
    /// A stage this client does not recognize: fatal at once.
    UnrecognizedStage { polls: u64 },
    /// The attempt budget was spent while the space was still pending.
    TimedOut { polls: u64 },
    /// The given stage sequence ended before the loop decided; a live poll
    /// always yields another stage, so this marks exhausted input only.
    OutOfInput,
}

/// The outcome of the wake-up loop when the successive polls report
/// `stages`, with `made` polls already behind it: ready stages succeed,
/// paused and unrecognized stages fail at once, and pending stages consume
/// the attempt budget until the timeout failure.
pub open spec fn spec_wake_run(stages: Seq<SpaceStatusRuntimeStage>, made: u64) -> WakeOutcome
    decreases stages.len(),
{
    if stages.len() == 0 {
        WakeOutcome::OutOfInput
    } else {
        let st = stages[0];
        let n = (made + 1) as u64;
        if spec_stage_ready(st) {
            WakeOutcome::Success { polls: n }
        } else if st is Paused {
            WakeOutcome::PausedSpace { polls: n }
        } else if spec_stage_pending(st) {
            if n >= MAX_WAKE_ATTEMPTS {
                WakeOutcome::TimedOut { polls: n }
            } else {
                spec_wake_run(stages.drop_first(), n)
            }
        } else {
            WakeOutcome::UnrecognizedStage { polls: n }
        }
    }
}

/// The outcome of the whole wake-up loop over an observed stage sequence:
/// the batch form of [`wake_step`], one decision per poll in order.
#[verifier::loop_isolation(false)]
pub fn wake_outcome(stages: &Vec<SpaceStatusRuntimeStage>) -> (r: WakeOutcome)
    ensures
        r == spec_wake_run(stages@, 0),
{
    let mut i: usize = 0;
    proof {
        assert(stages@.skip(0) =~= stages@);
    }
    while i < stages.len()
        invariant
            i <= stages@.len(),
            i < MAX_WAKE_ATTEMPTS,
            spec_wake_run(stages@, 0) == spec_wake_run(stages@.skip(i as int), i as u64),
        decreases stages@.len() - i,
    {
        let n: u64 = (i as u64) + 1;
        proof {
            assert(stages@.skip(i as int)[0] == stages@[i as int]);
            assert(stages@.skip(i as int).drop_first() =~= stages@.skip(i as int + 1));
        }
        match &stages[i] {
            SpaceStatusRuntimeStage::Running => {
                return WakeOutcome::Success { polls: n };
            },
            SpaceStatusRuntimeStage::RunningBuilding => {
                return WakeOutcome::Success { polls: n };
            },
            SpaceStatusRuntimeStage::Paused => {
                return WakeOutcome::PausedSpace { polls: n };
            },
            SpaceStatusRuntimeStage::Unknown(t) => {
                return WakeOutcome::UnrecognizedStage { polls: n };
            },
            _ => {
                if n >= MAX_WAKE_ATTEMPTS {
                    return WakeOutcome::TimedOut { polls: n };
                }
            },
        }
        i += 1;
    }
    proof {
        assert(stages@.skip(i as int).len() == 0);
    }
    WakeOutcome::OutOfInput
}

/// A ready stage on the first poll succeeds with zero delay: one poll, no
/// sleep.
pub proof fn lemma_wake_ready_first_poll(stages: Seq<SpaceStatusRuntimeStage>)
    requires
        stages.len() > 0,
        spec_stage_ready(stages[0]),
    ensures
        spec_wake_run(stages, 0) == (WakeOutcome::Success { polls: 1u64 }),
{
}

proof fn lemma_wake_sleeping_times_out_from(stages: Seq<SpaceStatusRuntimeStage>, made: u64)
    requires
        made < MAX_WAKE_ATTEMPTS,
        stages.len() + made >= MAX_WAKE_ATTEMPTS,
        forall|i: int| 0 <= i < stages.len() ==> stages[i] is Sleeping,
    ensures
        spec_wake_run(stages, made) == (WakeOutcome::TimedOut { polls: MAX_WAKE_ATTEMPTS }),
    decreases stages.len(),
{
    assert(spec_stage_pending(stages[0]));
    if made + 1 < MAX_WAKE_ATTEMPTS {
        lemma_wake_sleeping_times_out_from(stages.drop_first(), (made + 1) as u64);
    }
}

/// A space that stays sleeping for the whole attempt budget makes the loop
/// end in the timeout failure on the last allowed poll — never in success.
pub proof fn lemma_wake_sleeping_times_out(stages: Seq<SpaceStatusRuntimeStage>)
    requires
        stages.len() >= MAX_WAKE_ATTEMPTS,
        forall|i: int| 0 <= i < stages.len() ==> stages[i] is Sleeping,
    ensures
        spec_wake_run(stages, 0) == (WakeOutcome::TimedOut { polls: MAX_WAKE_ATTEMPTS }),
        !(spec_wake_run(stages, 0) is Success),
{
    lemma_wake_sleeping_times_out_from(stages, 0);
}

/// A paused stage on the first poll fails at once, well before the attempt
/// budget is spent.
pub proof fn lemma_wake_paused_returns_immediately(stages: Seq<SpaceStatusRuntimeStage>)
    requires
        stages.len() > 0,
        stages[0] is Paused,
    ensures
        spec_wake_run(stages, 0) == (WakeOutcome::PausedSpace { polls: 1u64 }),
        1 < MAX_WAKE_ATTEMPTS,
{
}

} // verus!