//! The rules behind the views: what a component shows for the data it is
//! given.

pub mod button;
pub mod todo;
pub mod user;

pub use button::{button_style, ButtonSize, ButtonVariant};
pub use todo::{todo_stats, todo_summary, Priority, TodoItem};
pub use user::{card_class, name_initial, CardConfig};
