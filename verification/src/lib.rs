//! A command-line journal: the interpretation of its arguments and the
//! rendering of its entries.

pub mod bargs;
pub mod dates;
pub mod db;
pub mod dispatch;
pub mod displaylist;
pub mod laws;
pub mod registry;
pub mod scan;
pub mod text;
