//! JEDEC SFDP (JESD216) discovery tables.
pub mod fields;
pub mod timing;
pub mod header;
pub mod words;
pub mod density;
pub mod table;
pub mod reader;
