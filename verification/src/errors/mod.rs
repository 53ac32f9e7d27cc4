//! The error types of the persistence, service and request layers, and the
//! rules that carry an error from one layer to the next.

pub mod app_error;
pub mod repository_error;
pub mod services_error;

pub use app_error::AppError;
pub use repository_error::RepositoryError;
pub use services_error::ServicesError;
