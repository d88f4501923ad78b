//! Widgets shared by the components.

pub mod button;
pub mod dropdown;

pub use button::{Button, State, Theme};
pub use dropdown::{Dropdown, DropdownItem, ScopeDropdown, SortDropdown};
