//! What the service answers, apart from how the answers travel.

pub mod definition;
pub mod implementation;
pub mod mock;

pub use definition::CallbackParams;
pub use definition::CallbackSuccessResponse;
pub use definition::ContributionsResponse;
pub use definition::HealthResponse;
pub use definition::OAuthTokenResponse;
pub use definition::RefreshParams;
pub use definition::VersionResponse;
pub use mock::MockAppState;
