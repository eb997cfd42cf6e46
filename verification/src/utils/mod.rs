pub mod hashing;
pub mod jwt_token;
