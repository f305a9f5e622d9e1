//! An internship-listing board: listings, comments with star ratings,
//! user accounts and expiring session tokens.

pub mod clock;
pub mod comment;
pub mod listing;
pub mod login;
pub mod profile;
pub mod rating;
pub mod session;
pub mod text;
