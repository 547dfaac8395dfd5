//! Client logic for an IKEA Dirigera hub: device records, capability checks and the
//! validated, cache-updating device mutations.
mod device;
mod mutation;
pub mod laws;
mod error;
mod auth;
mod url;
mod body;

pub use device::{has_capability, Attributes, Capabilities, Capability, Device, DeviceType, Startup};
pub use mutation::{apply, finish, prepare, required_capabilities, Change, Operation, Rejection};
pub use error::HubError;
pub use auth::{code_from_member, read_code, read_token, token_from_member};
pub use url::{bearer_value, make_url, DIRIGERA_PORT};
pub use body::patch_body;
