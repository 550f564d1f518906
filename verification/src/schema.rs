//! The typed model of what the daemon manages: units, unit states, machines,
//! and the pages in which collections of them arrive.
pub mod machine;
pub mod unit;

pub use self::machine::{keys_are_distinct, Machine, MachinePage, MachinePageView, MachineView};
pub use self::unit::{
    option_views, Unit, UnitOption, UnitOptionView, UnitPage, UnitPageView, UnitState, UnitStatePage,
    UnitStatePageView, UnitStateView, UnitStates, UnitView,
};
