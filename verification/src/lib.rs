pub mod decode;
pub mod error;
pub mod native;

pub use decode::decode_secret;
pub use decode::decode_secret_text;
pub use error::ErrorCause;
pub use error::KeyringError;
pub use error::KeyringResult;
