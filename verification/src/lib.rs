pub mod app_state;
pub mod data_stores;
pub mod email;
pub mod encode;
pub mod error;
pub mod hashmap_two_fa_code_store;
pub mod hashmap_user_store;
pub mod hashset_banned_token_store;
pub mod login_attempt_id;
pub mod password;
pub mod persistent;
pub mod routes;
pub mod token;
pub mod two_fa_code;
pub mod user;
