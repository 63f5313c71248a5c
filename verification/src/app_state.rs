use vstd::prelude::*;

use crate::data_stores::{BannedTokenStore, TwoFACodeStore, UserStore};
use crate::token::TokenConfig;

verus! {

/// The shared state container: constructed once at startup, it exclusively
/// owns the three store instances and the token configuration. Request
/// handlers borrow the stores from here for the duration of one store
/// operation; the orchestrator and token service never hold copies of store
/// state.
pub struct AppState<U: UserStore, B: BannedTokenStore, T: TwoFACodeStore> {
    pub user_store: U,
    pub banned_token_store: B,
    pub two_fa_code_store: T,
    pub token_config: TokenConfig,
}

impl<U: UserStore, B: BannedTokenStore, T: TwoFACodeStore> AppState<U, B, T> {
    pub fn new(user_store: U, banned_token_store: B, two_fa_code_store: T, token_config: TokenConfig) -> (r: Self)
        ensures
            r.user_store == user_store,
            r.banned_token_store == banned_token_store,
            r.two_fa_code_store == two_fa_code_store,
            r.token_config == token_config,
    {
        AppState { user_store, banned_token_store, two_fa_code_store, token_config }
    }
}

} // verus!
