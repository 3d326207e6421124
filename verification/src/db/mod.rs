//! The `db` macro: from the database module as written, through the checked schema,
//! to the SQL statements and migrations of each table.

pub mod stage1;
pub mod stage2;
pub mod stage3;
pub mod stage4;
