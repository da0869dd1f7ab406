//! The handlers of the profile service.
pub mod create_user;
pub mod delete_user;
pub mod get_user;
pub mod get_users;
pub mod update_user;
