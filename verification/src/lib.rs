pub mod count;
pub mod decl;
pub mod extract;
pub mod paths;
pub mod record;
pub mod report;
