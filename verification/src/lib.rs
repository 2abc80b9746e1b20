//! A small record of a person, a name and an age, and the one-line
//! introduction that such a record gives of itself.

pub mod decimal;
pub mod user;
