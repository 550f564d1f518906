//! Units, their options and their states.
use vstd::prelude::*;
use crate::error::{mapping_error, FleetError, FleetErrorView};
use rustc_serialize::json::Json;
use crate::codec::{json_content, json_string};
use crate::json::JsonView;
use crate::text::{opt_view, str_eq};

verus! {

/// The possible runtime states a unit can be in.
#[derive(Debug, Clone, Copy, PartialEq, Eq, Structural)]
pub enum UnitStates {
    /// The unit has not been loaded onto a machine and is not running.
    Inactive,
    /// The unit has been loaded onto a machine but is not running.
    Loaded,
    /// The unit has been loaded onto a machine and is running.
    Launched,
}

/// What a mapping error names when a state is none of the three known ones.
pub open spec fn invalid_state_value() -> Seq<char> {
    "invalid-state-value"@
}

impl UnitStates {
    /// The lower-case word that stands for the state on the wire.
    pub open spec fn token(self) -> Seq<char> {
        match self {
            UnitStates::Inactive => "inactive"@,
            UnitStates::Loaded => "loaded"@,
            UnitStates::Launched => "launched"@,
        }
    }

    /// The state that a wire word stands for, if it is one of the three.
    pub open spec fn of_token(word: Seq<char>) -> Option<UnitStates> {
        if word == "inactive"@ {
            Some(UnitStates::Inactive)
        } else if word == "loaded"@ {
            Some(UnitStates::Loaded)
        } else if word == "launched"@ {
            Some(UnitStates::Launched)
        } else {
            None
        }
    }

    /// What [`UnitStates::from_str`] returns for `word`.
    pub open spec fn decoded(word: Seq<char>) -> Result<UnitStates, FleetErrorView> {
        match UnitStates::of_token(word) {
            Some(state) => Ok(state),
            None => Err(mapping_error(invalid_state_value())),
        }
    }

    /// Returns the `UnitStates` variant corresponding to a string representation.
    ///
    /// # Failures
    ///
    /// Any string but `inactive`, `loaded` and `launched`, written exactly so, is refused with
    /// a mapping error that names `invalid-state-value`.
    pub fn from_str(s: &str) -> (r: Result<UnitStates, FleetError>)
        ensures
            match r {
                Ok(state) => UnitStates::decoded(s@) == Ok::<UnitStates, FleetErrorView>(state),
                Err(e) => UnitStates::decoded(s@) == Err::<UnitStates, FleetErrorView>(e@),
            },
    {
        if str_eq(s, "inactive") {
            Ok(UnitStates::Inactive)
        } else if str_eq(s, "loaded") {
            Ok(UnitStates::Loaded)
        } else if str_eq(s, "launched") {
            Ok(UnitStates::Launched)
        } else {
            Err(FleetError::mapping("invalid-state-value"))
        }
    }

    /// The word that stands for the state on the wire.
    pub fn as_str(&self) -> (r: &'static str)
        ensures
            r@ == self.token(),
    {
        match self {
            UnitStates::Inactive => "inactive",
            UnitStates::Loaded => "loaded",
            UnitStates::Launched => "launched",
        }
    }

    /// The state as the JSON string that requests carry.
    pub fn to_json(&self) -> (r: Json)
        ensures
            json_content(r) == JsonView::String(self.token()),
    {
        json_string(self.as_str())
    }
}

/// Every state is read back from its own wire word.
pub proof fn lemma_token_round_trip(state: UnitStates)
    ensures
        UnitStates::of_token(state.token()) == Some(state),
{
    reveal_strlit("inactive");
    reveal_strlit("loaded");
    reveal_strlit("launched");
    assert("loaded"@.len() == 6);
    assert("launched"@.len() == 8);
    assert("inactive"@[0] == 'i');
    assert("launched"@[0] == 'l');
}

/// A single line from a unit file. Unit files consist of key/value pairs divided into sections.
#[derive(Debug, Clone, PartialEq, Eq)]
pub struct UnitOption {
    /// The key.
    pub name: String,
    /// The section the key/value pair will appear under.
    pub section: String,
    /// The value.
    pub value: String,
}

/// The mathematical model of a [`UnitOption`].
pub struct UnitOptionView {
    pub name: Seq<char>,
    pub section: Seq<char>,
    pub value: Seq<char>,
}

impl View for UnitOption {
    type V = UnitOptionView;

    open spec fn view(&self) -> UnitOptionView {
        UnitOptionView { name: self.name@, section: self.section@, value: self.value@ }
    }
}

/// The models of a sequence of unit options, in order.
pub open spec fn option_views(options: Seq<UnitOption>) -> Seq<UnitOptionView> {
    options.map_values(|o: UnitOption| o@)
}

/// A single fleet unit, which is a systemd unit with optional fleet-specific data.
#[derive(Debug, Clone, PartialEq, Eq)]
pub struct Unit {
    /// The unit's state.
    pub current_state: UnitStates,
    /// The unit's future state. Eventually fleetd will move the unit into this state, but it might
    /// not have happened yet.
    pub desired_state: UnitStates,
    /// The unique ID of the machine where the unit is loaded/running, unless it is inactive.
    pub machine_id: Option<String>,
    /// The unit's name.
    pub name: String,
    /// The lines of key/value pairs that make up a unit file.
    pub options: Vec<UnitOption>,
}

/// The mathematical model of a [`Unit`].
pub struct UnitView {
    pub current_state: UnitStates,
    pub desired_state: UnitStates,
    pub machine_id: Option<Seq<char>>,
    pub name: Seq<char>,
    pub options: Seq<UnitOptionView>,
}

impl View for Unit {
    type V = UnitView;

    open spec fn view(&self) -> UnitView {
        UnitView {
            current_state: self.current_state,
            desired_state: self.desired_state,
            machine_id: opt_view(self.machine_id),
            name: self.name@,
            options: option_views(self.options@),
        }
    }
}

impl UnitView {
    /// Whether the machine fits the state: a unit that is inactive is on no
    /// machine. A unit that is loaded or launched may still lack its
    /// machine, which the daemon assigns later.
    pub open spec fn placement_is_consistent(self) -> bool {
        self.current_state == UnitStates::Inactive ==> self.machine_id is None
    }
}

impl Unit {
    /// Tests whether the machine fits the state.
    pub fn placement_is_consistent(&self) -> (r: bool)
        ensures
            r == self@.placement_is_consistent(),
    {
        match self.current_state {
            UnitStates::Inactive => self.machine_id.is_none(),
            _ => true,
        }
    }
}

/// A single page from a paginated collection of units.
#[derive(Debug, Clone, PartialEq, Eq)]
pub struct UnitPage {
    /// The units in this page.
    pub units: Vec<Unit>,
    /// If `Some`, at least one additional page is available and can be requested with this token.
    pub next_page_token: Option<String>,
}

/// The mathematical model of a [`UnitPage`].
pub struct UnitPageView {
    pub units: Seq<UnitView>,
    pub next_page_token: Option<Seq<char>>,
}

impl View for UnitPage {
    type V = UnitPageView;

    open spec fn view(&self) -> UnitPageView {
        UnitPageView {
            units: self.units@.map_values(|u: Unit| u@),
            next_page_token: opt_view(self.next_page_token),
        }
    }
}

/// The current state of a unit.
#[derive(Debug, Clone, PartialEq, Eq)]
pub struct UnitState {
    /// The unit's name.
    pub name: String,
    /// A unique hash for the unit.
    pub hash: String,
    /// The unique ID of the machine where the unit is loaded/running, unless it is inactive.
    pub machine_id: Option<String>,
    /// The load state of the unit as reported by systemd.
    pub systemd_load_state: String,
    /// The active state of the unit as reported by systemd.
    pub systemd_active_state: String,
    /// The sub state of the unit as reported by systemd.
    pub systemd_sub_state: String,
}

/// The mathematical model of a [`UnitState`].
pub struct UnitStateView {
    pub name: Seq<char>,
    pub hash: Seq<char>,
    pub machine_id: Option<Seq<char>>,
    pub systemd_load_state: Seq<char>,
    pub systemd_active_state: Seq<char>,
    pub systemd_sub_state: Seq<char>,
}

impl View for UnitState {
    type V = UnitStateView;

    open spec fn view(&self) -> UnitStateView {
        UnitStateView {
            name: self.name@,
            hash: self.hash@,
            machine_id: opt_view(self.machine_id),
            systemd_load_state: self.systemd_load_state@,
            systemd_active_state: self.systemd_active_state@,
            systemd_sub_state: self.systemd_sub_state@,
        }
    }
}

/// A single page from a paginated collection of unit states.
#[derive(Debug, Clone, PartialEq, Eq)]
pub struct UnitStatePage {
    /// The unit states in this page.
    pub states: Vec<UnitState>,
    /// If `Some`, at least one additional page is available and can be requested with this token.
    pub next_page_token: Option<String>,
}

/// The mathematical model of a [`UnitStatePage`].
pub struct UnitStatePageView {
    pub states: Seq<UnitStateView>,
    pub next_page_token: Option<Seq<char>>,
}

impl View for UnitStatePage {
    type V = UnitStatePageView;

    open spec fn view(&self) -> UnitStatePageView {
        UnitStatePageView {
            states: self.states@.map_values(|s: UnitState| s@),
            next_page_token: opt_view(self.next_page_token),
        }
    }
}

} // verus!
