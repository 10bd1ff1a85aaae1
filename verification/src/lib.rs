//! A static catalog of open-source licenses: for a license identifier it gives
//! the permissions, conditions and limitations of that license.

pub mod bullets;
pub mod catalog;
pub mod conditions;
pub mod limitations;
pub mod permissions;
pub mod record;
pub mod registry;
pub mod text;

pub use conditions::Conditions;
pub use limitations::Limitations;
pub use permissions::Permissions;
pub use record::LicenseRecord;
pub use registry::from_id_ext;
