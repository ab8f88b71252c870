//! The menu event router: maps a native menu-item identifier to a registry
//! mutation, the check-state commands that re-sync the native items, and
//! the configuration event to emit.
//!
//! The host toolkit's checkable items are independent widgets, not a native
//! radio group, so mutual exclusion is re-asserted in software on every
//! group-member click, also when the clicked option was already selected.
//! For the two feedback toggles the toolkit auto-toggles the item before
//! notifying, so the post-click checked state it reports is taken as the
//! authoritative new state and is not re-inverted; for exclusive groups the
//! router computes the new checked states itself. That asymmetry is
//! deliberate and must stay.

use vstd::prelude::*;
use vstd::string::StringExecFns;

use crate::events::{CheckCommand, CheckCommandView, ConfigEvent, ConfigEventView, EventValue, Mode};
use crate::registry::{
    checks_of, group_select_spec, tray_wf, GroupView, OptionGroup, ToggleView, TrayMenuState,
    TrayView,
};
use crate::text::{lemma_neq_at, lemma_neq_by_len, str_eq};

verus! {

/// The checked states of the two feedback toggle widgets as the host
/// toolkit reports them after it has applied a click.
#[derive(Clone, Copy, Debug, PartialEq, Eq)]
pub struct FeedbackSnapshot {
    pub dot_checked: bool,
    pub toast_checked: bool,
}

/// What the shell must do after a menu click has been routed.
#[derive(Clone, Debug, PartialEq, Eq)]
pub enum RouteAction {
    /// Terminate the process with exit code 0.
    Quit,
    /// Apply the check-state commands to the native items, then emit the
    /// configuration event.
    Emit { checks: Vec<CheckCommand>, event: ConfigEvent },
    /// Unknown identifier: do nothing.
    Ignore,
}

/// Mathematical model of a routing outcome.
pub ghost enum ActionView {
    Quit,
    Emit { checks: Seq<CheckCommandView>, event: ConfigEventView },
    Ignore,
}

impl View for RouteAction {
    type V = ActionView;

    open spec fn view(&self) -> ActionView {
        match self {
            RouteAction::Quit => ActionView::Quit,
            RouteAction::Emit { checks, event } => ActionView::Emit {
                checks: checks@.map_values(|c: CheckCommand| c@),
                event: event@,
            },
            RouteAction::Ignore => ActionView::Ignore,
        }
    }
}

/// The outcome of a feedback toggle click: the registry records the
/// post-click state and the event carries it; no check-state commands,
/// since the toolkit has already applied the toggle.
pub open spec fn feedback_action(name: Seq<char>, on: bool) -> ActionView {
    ActionView::Emit {
        checks: Seq::empty(),
        event: ConfigEventView { name, value: EventValue::Flag { on } },
    }
}

/// The outcome of selecting index `i` in group `g`: every member's checked
/// flag re-asserted and the group's event with the chosen option's payload.
pub open spec fn group_action(g: GroupView, i: int) -> ActionView {
    ActionView::Emit {
        checks: checks_of(group_select_spec(g, i)),
        event: ConfigEventView { name: g.event_name, value: g.options[i].value },
    }
}

/// The router's transition table: from the registry state, the clicked
/// identifier and the toolkit's post-click toggle snapshot to the new
/// registry state and the action the shell must take. Any identifier
/// outside the table is a no-op.
pub open spec fn route_spec(pre: TrayView, id: Seq<char>, snap: FeedbackSnapshot) -> (
    TrayView,
    ActionView,
) {
    if id == "quit"@ {
        (pre, ActionView::Quit)
    } else if id == "feedback_dot"@ {
        (
            TrayView { dot: ToggleView { checked: snap.dot_checked, ..pre.dot }, ..pre },
            feedback_action("set_feedback_dot"@, snap.dot_checked),
        )
    } else if id == "feedback_toast"@ {
        (
            TrayView { toast: ToggleView { checked: snap.toast_checked, ..pre.toast }, ..pre },
            feedback_action("set_feedback_toast"@, snap.toast_checked),
        )
    } else if id == "mode_laser"@ {
        (TrayView { mode: group_select_spec(pre.mode, 0), ..pre }, group_action(pre.mode, 0))
    } else if id == "mode_off"@ {
        (TrayView { mode: group_select_spec(pre.mode, 1), ..pre }, group_action(pre.mode, 1))
    } else if id == "size_small"@ {
        (TrayView { size: group_select_spec(pre.size, 0), ..pre }, group_action(pre.size, 0))
    } else if id == "size_mid"@ {
        (TrayView { size: group_select_spec(pre.size, 1), ..pre }, group_action(pre.size, 1))
    } else if id == "size_large"@ {
        (TrayView { size: group_select_spec(pre.size, 2), ..pre }, group_action(pre.size, 2))
    } else if id == "sens_low"@ {
        (TrayView { sens: group_select_spec(pre.sens, 0), ..pre }, group_action(pre.sens, 0))
    } else if id == "sens_mid"@ {
        (TrayView { sens: group_select_spec(pre.sens, 1), ..pre }, group_action(pre.sens, 1))
    } else if id == "sens_high"@ {
        (TrayView { sens: group_select_spec(pre.sens, 2), ..pre }, group_action(pre.sens, 2))
    } else {
        (pre, ActionView::Ignore)
    }
}

/// Selects index `idx` in the group and builds the action: the re-asserted
/// check-state commands and the group's event with the chosen payload.
fn apply_group(g: &mut OptionGroup, idx: usize) -> (r: RouteAction)
    requires
        idx < old(g)@.options.len(),
    ensures
        final(g)@ == group_select_spec(old(g)@, idx as int),
        r@ == group_action(old(g)@, idx as int),
{
    let name = g.event_name.clone();
    let value = g.options[idx].value;
    let checks = g.select_index(idx);
    RouteAction::Emit { checks, event: ConfigEvent { name, value } }
}

/// Routes one menu click: mutates the registry as the transition table
/// says and returns the action the shell must take.
pub fn handle_menu_click(state: &mut TrayMenuState, id: &str, snap: FeedbackSnapshot) -> (r:
    RouteAction)
    requires
        tray_wf(old(state)@),
    ensures
        final(state)@ == route_spec(old(state)@, id@, snap).0,
        r@ == route_spec(old(state)@, id@, snap).1,
        tray_wf(final(state)@),
{
    if str_eq(id, "quit") {
        RouteAction::Quit
    } else if str_eq(id, "feedback_dot") {
        state.dot.checked = snap.dot_checked;
        let checks: Vec<CheckCommand> = Vec::new();
        proof {
            assert(checks@.map_values(|c: CheckCommand| c@) =~= Seq::<CheckCommandView>::empty());
        }
        RouteAction::Emit {
            checks,
            event: ConfigEvent {
                name: String::from_str("set_feedback_dot"),
                value: EventValue::Flag { on: snap.dot_checked },
            },
        }
    } else if str_eq(id, "feedback_toast") {
        state.toast.checked = snap.toast_checked;
        let checks: Vec<CheckCommand> = Vec::new();
        proof {
            assert(checks@.map_values(|c: CheckCommand| c@) =~= Seq::<CheckCommandView>::empty());
        }
        RouteAction::Emit {
            checks,
            event: ConfigEvent {
                name: String::from_str("set_feedback_toast"),
                value: EventValue::Flag { on: snap.toast_checked },
            },
        }
    } else if str_eq(id, "mode_laser") {
        apply_group(&mut state.mode, 0)
    } else if str_eq(id, "mode_off") {
        apply_group(&mut state.mode, 1)
    } else if str_eq(id, "size_small") {
        apply_group(&mut state.size, 0)
    } else if str_eq(id, "size_mid") {
        apply_group(&mut state.size, 1)
    } else if str_eq(id, "size_large") {
        apply_group(&mut state.size, 2)
    } else if str_eq(id, "sens_low") {
        apply_group(&mut state.sens, 0)
    } else if str_eq(id, "sens_mid") {
        apply_group(&mut state.sens, 1)
    } else if str_eq(id, "sens_high") {
        apply_group(&mut state.sens, 2)
    } else {
        RouteAction::Ignore
    }
}

/// The configuration event an action emits, if any.
pub open spec fn emitted_event(a: ActionView) -> Option<ConfigEventView> {
    match a {
        ActionView::Emit { checks: _, event } => Some(event),
        ActionView::Quit => None,
        ActionView::Ignore => None,
    }
}

/// Routing preserves the registry invariant: from a well-formed state
/// every click, whatever its identifier and the toolkit's snapshot, leads
/// to a well-formed state, so at every observable time each group has
/// exactly one selected option.
pub proof fn lemma_route_preserves_wf(t: TrayView, id: Seq<char>, snap: FeedbackSnapshot)
    requires
        tray_wf(t),
    ensures
        tray_wf(route_spec(t, id, snap).0),
{
}

/// Routing is idempotent: delivering the same identifier twice with the
/// same toolkit snapshot leaves the state where the first delivery put it
/// and repeats the same action, so a click on an already-selected option
/// changes nothing and each delivery emits at most one event.
pub proof fn lemma_route_idempotent(t: TrayView, id: Seq<char>, snap: FeedbackSnapshot)
    ensures
        route_spec(route_spec(t, id, snap).0, id, snap) == route_spec(t, id, snap),
{
}

/// The emitted events follow the documented table exactly: each group
/// member identifier yields its group's event name with its fixed payload,
/// each feedback identifier yields the toggle's event with the post-click
/// state, and `quit` emits nothing.
pub proof fn lemma_event_table(t: TrayView, snap: FeedbackSnapshot)
    requires
        tray_wf(t),
    ensures
        emitted_event(route_spec(t, "quit"@, snap).1) is None,
        emitted_event(route_spec(t, "feedback_dot"@, snap).1) == Some(
            ConfigEventView {
                name: "set_feedback_dot"@,
                value: EventValue::Flag { on: snap.dot_checked },
            },
        ),
        emitted_event(route_spec(t, "feedback_toast"@, snap).1) == Some(
            ConfigEventView {
                name: "set_feedback_toast"@,
                value: EventValue::Flag { on: snap.toast_checked },
            },
        ),
        emitted_event(route_spec(t, "mode_laser"@, snap).1) == Some(
            ConfigEventView {
                name: "set_mode"@,
                value: EventValue::ModeName { mode: Mode::Laser },
            },
        ),
        emitted_event(route_spec(t, "mode_off"@, snap).1) == Some(
            ConfigEventView { name: "set_mode"@, value: EventValue::ModeName { mode: Mode::Off } },
        ),
        emitted_event(route_spec(t, "size_small"@, snap).1) == Some(
            ConfigEventView { name: "set_pointer_size"@, value: EventValue::SizePx { px: 5 } },
        ),
        emitted_event(route_spec(t, "size_mid"@, snap).1) == Some(
            ConfigEventView { name: "set_pointer_size"@, value: EventValue::SizePx { px: 10 } },
        ),
        emitted_event(route_spec(t, "size_large"@, snap).1) == Some(
            ConfigEventView { name: "set_pointer_size"@, value: EventValue::SizePx { px: 15 } },
        ),
        emitted_event(route_spec(t, "sens_low"@, snap).1) == Some(
            ConfigEventView {
                name: "set_sensitivity"@,
                value: EventValue::SensHundredths { hundredths: 2 },
            },
        ),
        emitted_event(route_spec(t, "sens_mid"@, snap).1) == Some(
            ConfigEventView {
                name: "set_sensitivity"@,
                value: EventValue::SensHundredths { hundredths: 4 },
            },
        ),
        emitted_event(route_spec(t, "sens_high"@, snap).1) == Some(
            ConfigEventView {
                name: "set_sensitivity"@,
                value: EventValue::SensHundredths { hundredths: 7 },
            },
        ),
{
    lemma_click_ids_distinct();
}

/// The eleven identifiers of the transition table are pairwise distinct
/// strings, so each click falls into exactly one branch of the table.
proof fn lemma_click_ids_distinct()
    ensures
        "quit"@ != "feedback_dot"@,
        "quit"@ != "feedback_toast"@,
        "quit"@ != "mode_laser"@,
        "quit"@ != "mode_off"@,
        "quit"@ != "size_small"@,
        "quit"@ != "size_mid"@,
        "quit"@ != "size_large"@,
        "quit"@ != "sens_low"@,
        "quit"@ != "sens_mid"@,
        "quit"@ != "sens_high"@,
        "feedback_dot"@ != "feedback_toast"@,
        "feedback_dot"@ != "mode_laser"@,
        "feedback_dot"@ != "mode_off"@,
        "feedback_dot"@ != "size_small"@,
        "feedback_dot"@ != "size_mid"@,
        "feedback_dot"@ != "size_large"@,
        "feedback_dot"@ != "sens_low"@,
        "feedback_dot"@ != "sens_mid"@,
        "feedback_dot"@ != "sens_high"@,
        "feedback_toast"@ != "mode_laser"@,
        "feedback_toast"@ != "mode_off"@,
        "feedback_toast"@ != "size_small"@,
        "feedback_toast"@ != "size_mid"@,
        "feedback_toast"@ != "size_large"@,
        "feedback_toast"@ != "sens_low"@,
        "feedback_toast"@ != "sens_mid"@,
        "feedback_toast"@ != "sens_high"@,
        "mode_laser"@ != "mode_off"@,
        "mode_laser"@ != "size_small"@,
        "mode_laser"@ != "size_mid"@,
        "mode_laser"@ != "size_large"@,
        "mode_laser"@ != "sens_low"@,
        "mode_laser"@ != "sens_mid"@,
        "mode_laser"@ != "sens_high"@,
        "mode_off"@ != "size_small"@,
        "mode_off"@ != "size_mid"@,
        "mode_off"@ != "size_large"@,
        "mode_off"@ != "sens_low"@,
        "mode_off"@ != "sens_mid"@,
        "mode_off"@ != "sens_high"@,
        "size_small"@ != "size_mid"@,
        "size_small"@ != "size_large"@,
        "size_small"@ != "sens_low"@,
        "size_small"@ != "sens_mid"@,
        "size_small"@ != "sens_high"@,
        "size_mid"@ != "size_large"@,
        "size_mid"@ != "sens_low"@,
        "size_mid"@ != "sens_mid"@,
        "size_mid"@ != "sens_high"@,
        "size_large"@ != "sens_low"@,
        "size_large"@ != "sens_mid"@,
        "size_large"@ != "sens_high"@,
        "sens_low"@ != "sens_mid"@,
        "sens_low"@ != "sens_high"@,
        "sens_mid"@ != "sens_high"@,
{
    reveal_strlit("quit");
    reveal_strlit("feedback_dot");
    reveal_strlit("feedback_toast");
    reveal_strlit("mode_laser");
    reveal_strlit("mode_off");
    reveal_strlit("size_small");
    reveal_strlit("size_mid");
    reveal_strlit("size_large");
    reveal_strlit("sens_low");
    reveal_strlit("sens_mid");
    reveal_strlit("sens_high");
    lemma_neq_by_len("quit"@, "feedback_dot"@);
    lemma_neq_by_len("quit"@, "feedback_toast"@);
    lemma_neq_by_len("quit"@, "mode_laser"@);
    lemma_neq_by_len("quit"@, "mode_off"@);
    lemma_neq_by_len("quit"@, "size_small"@);
    lemma_neq_by_len("quit"@, "size_mid"@);
    lemma_neq_by_len("quit"@, "size_large"@);
    lemma_neq_by_len("quit"@, "sens_low"@);
    lemma_neq_by_len("quit"@, "sens_mid"@);
    lemma_neq_by_len("quit"@, "sens_high"@);
    lemma_neq_by_len("feedback_dot"@, "feedback_toast"@);
    lemma_neq_by_len("feedback_dot"@, "mode_laser"@);
    lemma_neq_by_len("feedback_dot"@, "mode_off"@);
    lemma_neq_by_len("feedback_dot"@, "size_small"@);
    lemma_neq_by_len("feedback_dot"@, "size_mid"@);
    lemma_neq_by_len("feedback_dot"@, "size_large"@);
    lemma_neq_by_len("feedback_dot"@, "sens_low"@);
    lemma_neq_by_len("feedback_dot"@, "sens_mid"@);
    lemma_neq_by_len("feedback_dot"@, "sens_high"@);
    lemma_neq_by_len("feedback_toast"@, "mode_laser"@);
    lemma_neq_by_len("feedback_toast"@, "mode_off"@);
    lemma_neq_by_len("feedback_toast"@, "size_small"@);
    lemma_neq_by_len("feedback_toast"@, "size_mid"@);
    lemma_neq_by_len("feedback_toast"@, "size_large"@);
    lemma_neq_by_len("feedback_toast"@, "sens_low"@);
    lemma_neq_by_len("feedback_toast"@, "sens_mid"@);
    lemma_neq_by_len("feedback_toast"@, "sens_high"@);
    lemma_neq_by_len("mode_laser"@, "mode_off"@);
    lemma_neq_at("mode_laser"@, "size_small"@, 0);
    lemma_neq_by_len("mode_laser"@, "size_mid"@);
    lemma_neq_at("mode_laser"@, "size_large"@, 0);
    lemma_neq_by_len("mode_laser"@, "sens_low"@);
    lemma_neq_by_len("mode_laser"@, "sens_mid"@);
    lemma_neq_by_len("mode_laser"@, "sens_high"@);
    lemma_neq_by_len("mode_off"@, "size_small"@);
    lemma_neq_at("mode_off"@, "size_mid"@, 0);
    lemma_neq_by_len("mode_off"@, "size_large"@);
    lemma_neq_at("mode_off"@, "sens_low"@, 0);
    lemma_neq_at("mode_off"@, "sens_mid"@, 0);
    lemma_neq_by_len("mode_off"@, "sens_high"@);
    lemma_neq_by_len("size_small"@, "size_mid"@);
    lemma_neq_at("size_small"@, "size_large"@, 5);
    lemma_neq_by_len("size_small"@, "sens_low"@);
    lemma_neq_by_len("size_small"@, "sens_mid"@);
    lemma_neq_by_len("size_small"@, "sens_high"@);
    lemma_neq_by_len("size_mid"@, "size_large"@);
    lemma_neq_at("size_mid"@, "sens_low"@, 1);
    lemma_neq_at("size_mid"@, "sens_mid"@, 1);
    lemma_neq_by_len("size_mid"@, "sens_high"@);
    lemma_neq_by_len("size_large"@, "sens_low"@);
    lemma_neq_by_len("size_large"@, "sens_mid"@);
    lemma_neq_by_len("size_large"@, "sens_high"@);
    lemma_neq_at("sens_low"@, "sens_mid"@, 5);
    lemma_neq_by_len("sens_low"@, "sens_high"@);
    lemma_neq_by_len("sens_mid"@, "sens_high"@);
}

/// Any identifier outside the transition table is a no-op: the registry
/// is untouched, nothing is checked or unchecked, no event is emitted.
pub proof fn lemma_unknown_id_noop(t: TrayView, id: Seq<char>, snap: FeedbackSnapshot)
    requires
        id != "quit"@,
        id != "feedback_dot"@,
        id != "feedback_toast"@,
        id != "mode_laser"@,
        id != "mode_off"@,
        id != "size_small"@,
        id != "size_mid"@,
        id != "size_large"@,
        id != "sens_low"@,
        id != "sens_mid"@,
        id != "sens_high"@,
    ensures
        route_spec(t, id, snap) == (t, ActionView::Ignore),
{
}

} // verus!
