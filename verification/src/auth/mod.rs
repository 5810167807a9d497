//! OAuth provider templates: each gives the issuer and JWKS URLs of a provider's domain.

pub mod auth0;
pub mod generic;
pub mod okta;
pub mod provider;

pub use auth0::Auth0Provider;
pub use generic::GenericOAuth2Provider;
pub use okta::OktaProvider;
pub use provider::{AnyProvider, BuiltinProvider, OAuthProvider, ProviderRegistry};
