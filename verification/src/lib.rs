//! A host directory as a relation: the schema of the relation, the negotiation of
//! filter constraints with a query planner, and the cursor that walks a snapshot of
//! one directory and projects each entry into typed column values.

pub mod columns;
pub mod cursor;
pub mod entry;
pub mod localtime;
pub mod paths;
pub mod scalars;
pub mod table;
