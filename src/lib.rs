//! Users table CRUD: entity descriptors, SQL statement builders, and a
//! reference model of the table that states what each statement does.
pub mod sql;
pub mod table;
pub mod user;
