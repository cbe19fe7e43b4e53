//! An authentication and session lifecycle engine: validated credential
//! value types, interchangeable user/revocation/challenge stores with exact
//! contracts, a session token codec, and the engine that ties them together.

pub mod cache_codec;
pub mod data_stores;
pub mod digits;
pub mod email;
pub mod engine;
pub mod errors;
pub mod hashing;
pub mod hashmap_banned_token_store;
pub mod hashmap_two_fa_code_store;
pub mod hashmap_user_store;
pub mod laws;
pub mod password;
pub mod token;
pub mod user;

pub use cache_codec::{decode_two_fa_pair, encode_two_fa_pair, get_key};
pub use data_stores::{BannedTokenStore, LoginAttemptId, TwoFACode, TwoFACodeStore, UserStore};
pub use email::Email;
pub use engine::{
    login, logout, signup, verify_2fa, verify_token, LoginRequest, LoginResponse, SignupRequest,
    SignupResponse, TwoFactorAuthResponse, Verify2FARequest, VerifyTokenRequest,
};
pub use errors::{AuthAPIError, BannedTokenStoreError, ErrorResponse, TwoFACodeStoreError, UserStoreError};
pub use hashing::{compute_password_hash, verify_password_hash};
pub use hashmap_banned_token_store::HashsetBannedTokenStore;
pub use hashmap_two_fa_code_store::HashmapTwoFACodeStore;
pub use hashmap_user_store::HashmapUserStore;
pub use password::Password;
pub use token::{generate_token, validate_token, TokenError, TOKEN_TTL_SECONDS};
pub use user::User;
