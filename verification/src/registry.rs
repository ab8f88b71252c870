//! The option-group / toggle registry: single source of truth for the
//! tray menu's configuration.
//!
//! A group owns an ordered sequence of options and the index of the one
//! selected option; the host toolkit's checkable items are re-asserted from
//! that index on every group mutation, so exactly one member is ever checked.
//! A toggle is an independent checkable entry whose post-click state the
//! toolkit reports and the registry records.

use vstd::prelude::*;
use vstd::string::StringExecFns;

use crate::events::{CheckCommand, CheckCommandView, EventValue, Mode};
use crate::text::str_eq;

verus! {

/// Failure of a registry operation: the given identifier names no entry.
#[derive(Clone, Copy, Debug, PartialEq, Eq)]
pub enum RegistryError {
    UnknownId,
}

/// One selectable menu entry of a group. Immutable once constructed.
#[derive(Clone, Debug, PartialEq, Eq)]
pub struct OptionEntry {
    pub id: String,
    pub label: String,
    /// The payload emitted when this entry becomes selected.
    pub value: EventValue,
}

/// Mathematical model of an option entry.
pub ghost struct OptionEntryView {
    pub id: Seq<char>,
    pub label: Seq<char>,
    pub value: EventValue,
}

impl View for OptionEntry {
    type V = OptionEntryView;

    open spec fn view(&self) -> OptionEntryView {
        OptionEntryView { id: self.id@, label: self.label@, value: self.value }
    }
}

/// A mutually exclusive option group: an ordered sequence of options and
/// the index of the selected one.
#[derive(Clone, Debug, PartialEq, Eq)]
pub struct OptionGroup {
    pub id: String,
    /// Name of the configuration event emitted when the selection changes.
    pub event_name: String,
    pub options: Vec<OptionEntry>,
    pub selected: usize,
}

/// Mathematical model of an option group.
pub ghost struct GroupView {
    pub id: Seq<char>,
    pub event_name: Seq<char>,
    pub options: Seq<OptionEntryView>,
    pub selected: int,
}

impl View for OptionGroup {
    type V = GroupView;

    open spec fn view(&self) -> GroupView {
        GroupView {
            id: self.id@,
            event_name: self.event_name@,
            options: self.options@.map_values(|o: OptionEntry| o@),
            selected: self.selected as int,
        }
    }
}

/// An independent checkable entry.
#[derive(Clone, Debug, PartialEq, Eq)]
pub struct Toggle {
    pub id: String,
    pub label: String,
    pub checked: bool,
}

/// Mathematical model of a toggle.
pub ghost struct ToggleView {
    pub id: Seq<char>,
    pub label: Seq<char>,
    pub checked: bool,
}

impl View for Toggle {
    type V = ToggleView;

    open spec fn view(&self) -> ToggleView {
        ToggleView { id: self.id@, label: self.label@, checked: self.checked }
    }
}

/// Well-formedness of a group: the selected index is in range and the
/// member identifiers are pairwise distinct.
pub open spec fn group_core_wf(g: GroupView) -> bool {
    &&& 0 <= g.selected < g.options.len()
    &&& forall|i: int, j: int|
        0 <= i < j < g.options.len() ==> g.options[i].id != g.options[j].id
}

/// The group after selecting the option at index `i`: only the selected
/// index changes; the options themselves are immutable.
pub open spec fn group_select_spec(g: GroupView, i: int) -> GroupView {
    GroupView { selected: i, ..g }
}

/// The native checked states that mirror a group: entry `j` is checked
/// exactly when it is the selected one.
pub open spec fn checks_of(g: GroupView) -> Seq<CheckCommandView> {
    Seq::new(
        g.options.len(),
        |j: int| CheckCommandView { item_id: g.options[j].id, checked: j == g.selected },
    )
}

impl OptionGroup {
    /// Index of the option with the given identifier, if any.
    pub fn position_of(&self, option_id: &str) -> (r: Option<usize>)
        ensures
            match r {
                Some(i) => i < self@.options.len() && self@.options[i as int].id == option_id@,
                None => forall|j: int|
                    0 <= j < self@.options.len() ==> self@.options[j].id != option_id@,
            },
    {
        let mut j: usize = 0;
        while j < self.options.len()
            invariant
                j <= self@.options.len(),
                self@.options.len() == self.options@.len(),
                forall|k: int| 0 <= k < j ==> self@.options[k].id != option_id@,
            decreases self.options.len() - j,
        {
            let entry = &self.options[j];
            if str_eq(entry.id.as_str(), option_id) {
                return Some(j);
            }
            j += 1;
        }
        None
    }

    /// Selects the option at index `idx` and reports the check-state
    /// commands that re-assert every member's native checked flag.
    pub fn select_index(&mut self, idx: usize) -> (r: Vec<CheckCommand>)
        requires
            idx < old(self)@.options.len(),
        ensures
            final(self)@ == group_select_spec(old(self)@, idx as int),
            r@.map_values(|c: CheckCommand| c@) == checks_of(final(self)@),
    {
        self.selected = idx;
        let r = self.check_commands();
        r
    }

    /// The check-state commands that mirror the current selection.
    pub fn check_commands(&self) -> (r: Vec<CheckCommand>)
        ensures
            r@.map_values(|c: CheckCommand| c@) == checks_of(self@),
    {
        let mut cmds: Vec<CheckCommand> = Vec::new();
        let mut j: usize = 0;
        while j < self.options.len()
            invariant
                j <= self.options@.len(),
                cmds@.len() == j,
                forall|k: int|
                    0 <= k < j ==> cmds@[k]@ == (CheckCommandView {
                        item_id: self@.options[k].id,
                        checked: k == self@.selected,
                    }),
            decreases self.options.len() - j,
        {
            let entry = &self.options[j];
            cmds.push(CheckCommand { item_id: entry.id.clone(), checked: j == self.selected });
            j += 1;
        }
        proof {
            assert(cmds@.map_values(|c: CheckCommand| c@) =~= checks_of(self@));
        }
        cmds
    }

    /// Selects the option with the given identifier, re-asserting every
    /// member's checked flag; fails with `UnknownId` and changes nothing
    /// when no member has that identifier.
    pub fn select_id(&mut self, option_id: &str) -> (r: Result<Vec<CheckCommand>, RegistryError>)
        ensures
            r is Ok <==> exists|i: int|
                0 <= i < old(self)@.options.len() && old(self)@.options[i].id == option_id@,
            forall|i: int|
                0 <= i < old(self)@.options.len() && old(self)@.options[i].id == option_id@
                    && group_core_wf(old(self)@) ==> final(self)@ == group_select_spec(
                    old(self)@,
                    i,
                ),
            r matches Ok(cmds) ==> cmds@.map_values(|c: CheckCommand| c@) == checks_of(
                final(self)@,
            ),
            r is Ok ==> final(self)@.options == old(self)@.options && final(self)@.id == old(
                self,
            )@.id && final(self)@.event_name == old(self)@.event_name && 0 <= final(self)@.selected
                < final(self)@.options.len(),
            r is Err ==> final(self)@ == old(self)@ && r == Err::<
                Vec<CheckCommand>,
                RegistryError,
            >(RegistryError::UnknownId),
    {
        match self.position_of(option_id) {
            Some(idx) => {
                let cmds = self.select_index(idx);
                Ok(cmds)
            },
            None => Err(RegistryError::UnknownId),
        }
    }
}

/// The whole registry: the three mutually exclusive groups and the two
/// independent feedback toggles. Created once at startup with the
/// documented defaults and mutated only through the registry operations
/// and the menu event router.
#[derive(Clone, Debug, PartialEq, Eq)]
pub struct TrayMenuState {
    pub mode: OptionGroup,
    pub size: OptionGroup,
    pub sens: OptionGroup,
    pub dot: Toggle,
    pub toast: Toggle,
}

/// Mathematical model of the registry.
pub ghost struct TrayView {
    pub mode: GroupView,
    pub size: GroupView,
    pub sens: GroupView,
    pub dot: ToggleView,
    pub toast: ToggleView,
}

impl View for TrayMenuState {
    type V = TrayView;

    open spec fn view(&self) -> TrayView {
        TrayView {
            mode: self.mode@,
            size: self.size@,
            sens: self.sens@,
            dot: self.dot@,
            toast: self.toast@,
        }
    }
}

/// The fixed table of the mode group: identifiers and payloads.
pub open spec fn mode_table_ok(g: GroupView) -> bool {
    &&& g.id == "mode_menu"@
    &&& g.event_name == "set_mode"@
    &&& g.options.len() == 2
    &&& g.options[0].id == "mode_laser"@
    &&& g.options[0].value == (EventValue::ModeName { mode: Mode::Laser })
    &&& g.options[1].id == "mode_off"@
    &&& g.options[1].value == (EventValue::ModeName { mode: Mode::Off })
}

/// The fixed table of the pointer size group: identifiers and payloads.
pub open spec fn size_table_ok(g: GroupView) -> bool {
    &&& g.id == "size_menu"@
    &&& g.event_name == "set_pointer_size"@
    &&& g.options.len() == 3
    &&& g.options[0].id == "size_small"@
    &&& g.options[0].value == (EventValue::SizePx { px: 5 })
    &&& g.options[1].id == "size_mid"@
    &&& g.options[1].value == (EventValue::SizePx { px: 10 })
    &&& g.options[2].id == "size_large"@
    &&& g.options[2].value == (EventValue::SizePx { px: 15 })
}

/// The fixed table of the sensitivity group: identifiers and payloads.
pub open spec fn sens_table_ok(g: GroupView) -> bool {
    &&& g.id == "sens_menu"@
    &&& g.event_name == "set_sensitivity"@
    &&& g.options.len() == 3
    &&& g.options[0].id == "sens_low"@
    &&& g.options[0].value == (EventValue::SensHundredths { hundredths: 2 })
    &&& g.options[1].id == "sens_mid"@
    &&& g.options[1].value == (EventValue::SensHundredths { hundredths: 4 })
    &&& g.options[2].id == "sens_high"@
    &&& g.options[2].value == (EventValue::SensHundredths { hundredths: 7 })
}

/// Well-formedness of the registry: every group is internally consistent
/// and carries the documented identifier and payload tables, and the two
/// toggles carry their documented identifiers.
pub open spec fn tray_wf(t: TrayView) -> bool {
    &&& group_core_wf(t.mode)
    &&& mode_table_ok(t.mode)
    &&& group_core_wf(t.size)
    &&& size_table_ok(t.size)
    &&& group_core_wf(t.sens)
    &&& sens_table_ok(t.sens)
    &&& t.dot.id == "feedback_dot"@
    &&& t.toast.id == "feedback_toast"@
}

impl TrayMenuState {
    /// The registry at startup: mode `laser`, size `small` (5 px),
    /// sensitivity `mid` (0.04), both feedback toggles on.
    pub fn new() -> (r: TrayMenuState)
        ensures
            tray_wf(r@),
            r@.mode.selected == 0,
            r@.size.selected == 0,
            r@.sens.selected == 1,
            r@.dot.checked,
            r@.toast.checked,
    {
        let mut mode_options: Vec<OptionEntry> = Vec::new();
        mode_options.push(
            OptionEntry {
                id: String::from_str("mode_laser"),
                label: String::from_str("Laser pointer"),
                value: EventValue::ModeName { mode: Mode::Laser },
            },
        );
        mode_options.push(
            OptionEntry {
                id: String::from_str("mode_off"),
                label: String::from_str("Hide display"),
                value: EventValue::ModeName { mode: Mode::Off },
            },
        );
        let mode = OptionGroup {
            id: String::from_str("mode_menu"),
            event_name: String::from_str("set_mode"),
            options: mode_options,
            selected: 0,
        };
        let mut size_options: Vec<OptionEntry> = Vec::new();
        size_options.push(
            OptionEntry {
                id: String::from_str("size_small"),
                label: String::from_str("Small (5px)"),
                value: EventValue::SizePx { px: 5 },
            },
        );
        size_options.push(
            OptionEntry {
                id: String::from_str("size_mid"),
                label: String::from_str("Medium (10px)"),
                value: EventValue::SizePx { px: 10 },
            },
        );
        size_options.push(
            OptionEntry {
                id: String::from_str("size_large"),
                label: String::from_str("Large (15px)"),
                value: EventValue::SizePx { px: 15 },
            },
        );
        let size = OptionGroup {
            id: String::from_str("size_menu"),
            event_name: String::from_str("set_pointer_size"),
            options: size_options,
            selected: 0,
        };
        let mut sens_options: Vec<OptionEntry> = Vec::new();
        sens_options.push(
            OptionEntry {
                id: String::from_str("sens_low"),
                label: String::from_str("Low (0.02)"),
                value: EventValue::SensHundredths { hundredths: 2 },
            },
        );
        sens_options.push(
            OptionEntry {
                id: String::from_str("sens_mid"),
                label: String::from_str("Medium (0.04)"),
                value: EventValue::SensHundredths { hundredths: 4 },
            },
        );
        sens_options.push(
            OptionEntry {
                id: String::from_str("sens_high"),
                label: String::from_str("High (0.07)"),
                value: EventValue::SensHundredths { hundredths: 7 },
            },
        );
        let sens = OptionGroup {
            id: String::from_str("sens_menu"),
            event_name: String::from_str("set_sensitivity"),
            options: sens_options,
            selected: 1,
        };
        let dot = Toggle {
            id: String::from_str("feedback_dot"),
            label: String::from_str("Show pinch dot"),
            checked: true,
        };
        let toast = Toggle {
            id: String::from_str("feedback_toast"),
            label: String::from_str("Show action text"),
            checked: true,
        };
        let r = TrayMenuState { mode, size, sens, dot, toast };
        proof {
            reveal_strlit("mode_laser");
            reveal_strlit("mode_off");
            reveal_strlit("size_small");
            reveal_strlit("size_mid");
            reveal_strlit("size_large");
            reveal_strlit("sens_low");
            reveal_strlit("sens_mid");
            reveal_strlit("sens_high");
            assert("mode_laser"@ != "mode_off"@) by {
                assert("mode_laser"@.len() == 10);
                assert("mode_off"@.len() == 8);
            }
            assert("size_small"@ != "size_mid"@) by {
                assert("size_small"@.len() == 10);
                assert("size_mid"@.len() == 8);
            }
            assert("size_small"@ != "size_large"@) by {
                assert("size_small"@[5] == 's');
                assert("size_large"@[5] == 'l');
            }
            assert("size_mid"@ != "size_large"@) by {
                assert("size_mid"@.len() == 8);
                assert("size_large"@.len() == 10);
            }
            assert("sens_low"@ != "sens_mid"@) by {
                assert("sens_low"@[5] == 'l');
                assert("sens_mid"@[5] == 'm');
            }
            assert("sens_low"@ != "sens_high"@) by {
                assert("sens_low"@.len() == 8);
                assert("sens_high"@.len() == 9);
            }
            assert("sens_mid"@ != "sens_high"@) by {
                assert("sens_mid"@.len() == 8);
                assert("sens_high"@.len() == 9);
            }
            assert(group_core_wf(r@.mode));
            assert(group_core_wf(r@.size));
            assert(group_core_wf(r@.sens));
        }
        r
    }

    /// Sets the option with identifier `option_id` selected in the group
    /// with identifier `group_id` and deselects every sibling, reporting
    /// the check-state commands that re-assert the whole group; fails with
    /// `UnknownId` and changes nothing for any other pair of identifiers.
    pub fn select(&mut self, group_id: &str, option_id: &str) -> (r: Result<
        Vec<CheckCommand>,
        RegistryError,
    >)
        requires
            tray_wf(old(self)@),
        ensures
            tray_wf(final(self)@),
            group_id@ == "mode_menu"@ ==> {
                &&& (r is Ok <==> exists|i: int|
                    0 <= i < old(self)@.mode.options.len() && old(self)@.mode.options[i].id
                        == option_id@)
                &&& forall|i: int|
                    0 <= i < old(self)@.mode.options.len() && old(self)@.mode.options[i].id
                        == option_id@ ==> final(self)@ == (TrayView {
                        mode: group_select_spec(old(self)@.mode, i),
                        ..old(self)@
                    })
                &&& (r matches Ok(cmds) ==> cmds@.map_values(|c: CheckCommand| c@) == checks_of(
                    final(self)@.mode,
                ))
            },
            group_id@ == "size_menu"@ ==> {
                &&& (r is Ok <==> exists|i: int|
                    0 <= i < old(self)@.size.options.len() && old(self)@.size.options[i].id
                        == option_id@)
                &&& forall|i: int|
                    0 <= i < old(self)@.size.options.len() && old(self)@.size.options[i].id
                        == option_id@ ==> final(self)@ == (TrayView {
                        size: group_select_spec(old(self)@.size, i),
                        ..old(self)@
                    })
                &&& (r matches Ok(cmds) ==> cmds@.map_values(|c: CheckCommand| c@) == checks_of(
                    final(self)@.size,
                ))
            },
            group_id@ == "sens_menu"@ ==> {
                &&& (r is Ok <==> exists|i: int|
                    0 <= i < old(self)@.sens.options.len() && old(self)@.sens.options[i].id
                        == option_id@)
                &&& forall|i: int|
                    0 <= i < old(self)@.sens.options.len() && old(self)@.sens.options[i].id
                        == option_id@ ==> final(self)@ == (TrayView {
                        sens: group_select_spec(old(self)@.sens, i),
                        ..old(self)@
                    })
                &&& (r matches Ok(cmds) ==> cmds@.map_values(|c: CheckCommand| c@) == checks_of(
                    final(self)@.sens,
                ))
            },
            group_id@ != "mode_menu"@ && group_id@ != "size_menu"@ && group_id@ != "sens_menu"@
                ==> final(self)@ == old(self)@ && r == Err::<Vec<CheckCommand>, RegistryError>(
                RegistryError::UnknownId,
            ),
            r is Err ==> final(self)@ == old(self)@ && r == Err::<Vec<CheckCommand>, RegistryError>(
                RegistryError::UnknownId,
            ),
    {
        let r = if str_eq(group_id, "mode_menu") {
            self.mode.select_id(option_id)
        } else if str_eq(group_id, "size_menu") {
            self.size.select_id(option_id)
        } else if str_eq(group_id, "sens_menu") {
            self.sens.select_id(option_id)
        } else {
            Err(RegistryError::UnknownId)
        };
        proof {
            reveal_strlit("mode_menu");
            reveal_strlit("size_menu");
            reveal_strlit("sens_menu");
            assert("mode_menu"@ != "size_menu"@) by {
                assert("mode_menu"@[0] == 'm');
                assert("size_menu"@[0] == 's');
            }
            assert("mode_menu"@ != "sens_menu"@) by {
                assert("mode_menu"@[0] == 'm');
                assert("sens_menu"@[0] == 's');
            }
            assert("size_menu"@ != "sens_menu"@) by {
                assert("size_menu"@[1] == 'i');
                assert("sens_menu"@[1] == 'e');
            }
        }
        r
    }

    /// Flips the named toggle's boolean; fails with `UnknownId` and
    /// changes nothing for any other identifier.
    pub fn toggle(&mut self, toggle_id: &str) -> (r: Result<bool, RegistryError>)
        requires
            tray_wf(old(self)@),
        ensures
            tray_wf(final(self)@),
            toggle_id@ == "feedback_dot"@ ==> final(self)@ == (TrayView {
                dot: ToggleView { checked: !old(self)@.dot.checked, ..old(self)@.dot },
                ..old(self)@
            }) && r == Ok::<bool, RegistryError>(!old(self)@.dot.checked),
            toggle_id@ == "feedback_toast"@ ==> final(self)@ == (TrayView {
                toast: ToggleView { checked: !old(self)@.toast.checked, ..old(self)@.toast },
                ..old(self)@
            }) && r == Ok::<bool, RegistryError>(!old(self)@.toast.checked),
            toggle_id@ != "feedback_dot"@ && toggle_id@ != "feedback_toast"@ ==> final(self)@ == old(
                self,
            )@ && r == Err::<bool, RegistryError>(RegistryError::UnknownId),
    {
        let r = if str_eq(toggle_id, "feedback_dot") {
            self.dot.checked = !self.dot.checked;
            Ok(self.dot.checked)
        } else if str_eq(toggle_id, "feedback_toast") {
            self.toast.checked = !self.toast.checked;
            Ok(self.toast.checked)
        } else {
            Err(RegistryError::UnknownId)
        };
        proof {
            lemma_feedback_ids_distinct();
        }
        r
    }

    /// Records the named toggle's new state as the host toolkit reports it
    /// after a click, without re-inverting it; fails with `UnknownId` and
    /// changes nothing for any other identifier.
    pub fn set_toggle_checked(&mut self, toggle_id: &str, value: bool) -> (r: Result<
        (),
        RegistryError,
    >)
        requires
            tray_wf(old(self)@),
        ensures
            tray_wf(final(self)@),
            toggle_id@ == "feedback_dot"@ ==> final(self)@ == (TrayView {
                dot: ToggleView { checked: value, ..old(self)@.dot },
                ..old(self)@
            }) && r is Ok,
            toggle_id@ == "feedback_toast"@ ==> final(self)@ == (TrayView {
                toast: ToggleView { checked: value, ..old(self)@.toast },
                ..old(self)@
            }) && r is Ok,
            toggle_id@ != "feedback_dot"@ && toggle_id@ != "feedback_toast"@ ==> final(self)@ == old(
                self,
            )@ && r == Err::<(), RegistryError>(RegistryError::UnknownId),
    {
        let r = if str_eq(toggle_id, "feedback_dot") {
            self.dot.checked = value;
            Ok(())
        } else if str_eq(toggle_id, "feedback_toast") {
            self.toast.checked = value;
            Ok(())
        } else {
            Err(RegistryError::UnknownId)
        };
        proof {
            lemma_feedback_ids_distinct();
        }
        r
    }
}

/// The two feedback toggle identifiers are distinct strings.
proof fn lemma_feedback_ids_distinct()
    ensures
        "feedback_dot"@ != "feedback_toast"@,
{
    reveal_strlit("feedback_dot");
    reveal_strlit("feedback_toast");
    assert("feedback_dot"@.len() == 12);
    assert("feedback_toast"@.len() == 14);
}

/// Exactly one member of a well-formed group is checked: the selected one.
///
/// At every observable time a group's mirrored native state marks one and
/// only one option as selected.
pub proof fn lemma_exactly_one_selected(g: GroupView)
    requires
        group_core_wf(g),
    ensures
        exists|i: int|
            0 <= i < g.options.len() && checks_of(g)[i].checked && (forall|j: int|
                0 <= j < g.options.len() && j != i ==> !checks_of(g)[j].checked),
{
    let i = g.selected;
    assert(0 <= i < g.options.len() && checks_of(g)[i].checked && (forall|j: int|
        0 <= j < g.options.len() && j != i ==> !checks_of(g)[j].checked));
}

/// Selection is idempotent: selecting an already-selected option leaves the
/// group unchanged, and selecting the same option twice equals selecting it
/// once.
pub proof fn lemma_select_idempotent(g: GroupView, i: int)
    ensures
        group_select_spec(group_select_spec(g, i), i) == group_select_spec(g, i),
        g.selected == i ==> group_select_spec(g, i) == g,
{
}

} // verus!
