//! The input injector's decision logic: maps a logical direction to the
//! platform key code and the exact pair of key events to synthesize, and
//! classifies the outcome the OS reports.
//!
//! The shell performs the actual injection: it creates the low-level event
//! source scoped to the HID system state, builds one key-down and one
//! key-up event for the planned code, and posts both to the HID tap in
//! plan order with no delay between them. Injection emulates real user
//! keyboard input system-wide, so callers must rate it no faster than
//! genuine key presses.

use vstd::prelude::*;
use vstd::string::StringExecFns;

use crate::text::{lemma_neq_by_len, str_eq};

verus! {

/// Failure of a key press request.
#[derive(Clone, Copy, Debug, PartialEq, Eq)]
pub enum InjectorError {
    /// The direction is neither `"left"` nor `"right"`.
    UnsupportedDirection,
    /// This build has no injection capability.
    UnsupportedPlatform,
    /// The OS denied creation of the input event source.
    EventSourceUnavailable,
    /// A key event could not be built.
    EventConstructionFailed,
}

/// One synthetic key transition: the platform key code, down or up.
#[derive(Clone, Copy, Debug, PartialEq, Eq)]
pub struct KeyEventStep {
    pub code: u16,
    pub down: bool,
}

/// The events to synthesize for one key press, in posting order.
#[derive(Clone, Debug, PartialEq, Eq)]
pub struct InjectionPlan {
    pub code: u16,
    pub steps: Vec<KeyEventStep>,
}

/// Mathematical model of an injection plan.
pub ghost struct InjectionPlanView {
    pub code: u16,
    pub steps: Seq<KeyEventStep>,
}

impl View for InjectionPlan {
    type V = InjectionPlanView;

    open spec fn view(&self) -> InjectionPlanView {
        InjectionPlanView { code: self.code, steps: self.steps@ }
    }
}

/// What the shell reports after attempting a planned injection.
#[derive(Clone, Copy, Debug, PartialEq, Eq)]
pub enum InjectionOutcome {
    /// The OS denied creation of the input event source.
    SourceUnavailable,
    /// A key event could not be built; nothing was posted.
    ConstructionFailed,
    /// Both events were posted to the HID tap.
    Delivered,
}

/// Key code of the left arrow key.
pub const LEFT_ARROW_CODE: u16 = 123;

/// Key code of the right arrow key.
pub const RIGHT_ARROW_CODE: u16 = 124;

/// Plans a key press for a logical direction: the key code and the pair of
/// events, key-down then key-up. Without platform support every direction
/// fails with `UnsupportedPlatform` and nothing is planned; with it, any
/// direction other than `"left"` and `"right"` fails with
/// `UnsupportedDirection` and nothing is planned.
pub fn plan_press(direction: &str, platform_supported: bool) -> (r: Result<
    InjectionPlan,
    InjectorError,
>)
    ensures
        !platform_supported ==> r == Err::<InjectionPlan, InjectorError>(
            InjectorError::UnsupportedPlatform,
        ),
        platform_supported && direction@ == "left"@ ==> (r matches Ok(p) && p@.code
            == LEFT_ARROW_CODE && p@.steps.len() == 2 && p@.steps[0] == (KeyEventStep {
            code: LEFT_ARROW_CODE,
            down: true,
        }) && p@.steps[1] == (KeyEventStep { code: LEFT_ARROW_CODE, down: false })),
        platform_supported && direction@ == "right"@ ==> (r matches Ok(p) && p@.code
            == RIGHT_ARROW_CODE && p@.steps.len() == 2 && p@.steps[0] == (KeyEventStep {
            code: RIGHT_ARROW_CODE,
            down: true,
        }) && p@.steps[1] == (KeyEventStep { code: RIGHT_ARROW_CODE, down: false })),
        platform_supported && direction@ != "left"@ && direction@ != "right"@ ==> r == Err::<
            InjectionPlan,
            InjectorError,
        >(InjectorError::UnsupportedDirection),
{
    let r = if !platform_supported {
        Err(InjectorError::UnsupportedPlatform)
    } else if str_eq(direction, "right") {
        Ok(build_plan(RIGHT_ARROW_CODE))
    } else if str_eq(direction, "left") {
        Ok(build_plan(LEFT_ARROW_CODE))
    } else {
        Err(InjectorError::UnsupportedDirection)
    };
    proof {
        reveal_strlit("left");
        reveal_strlit("right");
        lemma_neq_by_len("left"@, "right"@);
    }
    r
}

/// Builds the down-then-up event pair for one key code.
fn build_plan(code: u16) -> (p: InjectionPlan)
    ensures
        p@.code == code,
        p@.steps.len() == 2,
        p@.steps[0] == (KeyEventStep { code, down: true }),
        p@.steps[1] == (KeyEventStep { code, down: false }),
{
    let mut steps: Vec<KeyEventStep> = Vec::new();
    steps.push(KeyEventStep { code, down: true });
    steps.push(KeyEventStep { code, down: false });
    InjectionPlan { code, steps }
}

/// Turns the shell's report on a planned injection into the press
/// operation's result: a denied event source surfaces as
/// `EventSourceUnavailable`, a failed event construction as
/// `EventConstructionFailed`, a delivered pair as success. Failures are
/// surfaced once and never retried.
pub fn finish_press(outcome: InjectionOutcome) -> (r: Result<(), InjectorError>)
    ensures
        outcome == InjectionOutcome::SourceUnavailable ==> r == Err::<(), InjectorError>(
            InjectorError::EventSourceUnavailable,
        ),
        outcome == InjectionOutcome::ConstructionFailed ==> r == Err::<(), InjectorError>(
            InjectorError::EventConstructionFailed,
        ),
        outcome == InjectionOutcome::Delivered ==> r == Ok::<(), InjectorError>(()),
{
    match outcome {
        InjectionOutcome::SourceUnavailable => Err(InjectorError::EventSourceUnavailable),
        InjectionOutcome::ConstructionFailed => Err(InjectorError::EventConstructionFailed),
        InjectionOutcome::Delivered => Ok(()),
    }
}

impl InjectorError {
    /// The error's wire spelling.
    pub open spec fn spec_message(self) -> Seq<char> {
        match self {
            InjectorError::UnsupportedDirection => "unknown direction"@,
            InjectorError::UnsupportedPlatform => "unsupported platform"@,
            InjectorError::EventSourceUnavailable => "event source failed"@,
            InjectorError::EventConstructionFailed => "key event failed"@,
        }
    }

    /// Builds the error's wire spelling.
    pub fn message(&self) -> (r: String)
        ensures
            r@ == self.spec_message(),
    {
        match self {
            InjectorError::UnsupportedDirection => String::from_str("unknown direction"),
            InjectorError::UnsupportedPlatform => String::from_str("unsupported platform"),
            InjectorError::EventSourceUnavailable => String::from_str("event source failed"),
            InjectorError::EventConstructionFailed => String::from_str("key event failed"),
        }
    }
}

} // verus!
