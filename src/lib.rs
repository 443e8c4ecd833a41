pub mod error;
pub mod guard;
pub mod post;
pub mod requests;
pub mod search;
pub mod session;
pub mod users;
