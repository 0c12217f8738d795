pub mod diary;
pub mod navbar;
pub mod query;
pub mod row;
pub mod startup;
