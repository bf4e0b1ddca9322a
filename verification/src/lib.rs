//! Schema migration for the save document of a weekly-schedule planner.
//!
//! The document exists in two schema versions. Version 2 adds a `validate`
//! flag to every day; the flag is derived from a reference date when a
//! version-1 document is upgraded and is dropped again on downgrade.

pub mod calendar;
pub mod driver;
pub mod laws;
pub mod machine;
pub mod model_version_1;
pub mod model_version_2;

pub use crate::model_version_1::{DayVersion1, SaveVersion1, WeekVersion1};
pub use crate::model_version_2::{
    downgrade_to_v1, upgrade_to_v2, DayVersion2, SaveVersion2, WeekVersion2,
};
