//! The names that most callers need.

pub use crate::affinity::Affinity;
pub use crate::column::Column;
pub use crate::database::Database;
pub use crate::row::Row;
pub use crate::table::Table;
