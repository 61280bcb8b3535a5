//! A validated, dot-separated identifier (a reverse-domain name) for naming
//! software applications, together with the `Application` aggregate built
//! around one.

pub mod application;
pub mod rdn;

pub use application::Application;
pub use application::ApplicationsType;
pub use rdn::ApplicationErrors;
pub use rdn::ApplicationRDN;
