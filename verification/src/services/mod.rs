//! The service layer's rules: what is checked before the persistence layer
//! is asked, and what its answers mean to the caller.

pub mod auth_service;
pub mod game_service;
pub mod session_service;
pub mod user_service;

pub use auth_service::AuthService;
pub use game_service::GameService;
pub use session_service::SessionService;
pub use user_service::UserService;
