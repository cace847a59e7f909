//! Role-based access control: declared roles, grants of roles to accounts,
//! global administrators, and the admission check run before every call.
pub mod admission;
pub mod laws;
pub mod names;
pub mod pallet;
pub mod role;
pub mod store;

pub use admission::Authorization;
pub use names::{validate_name, CallName, PalletName, Rejection, NAME_LENGTH};
pub use pallet::{
    ensure_signed, Config, DispatchError, EnsureRoot, Error, Event, GenesisConfig, Origin, Pallet,
};
pub use role::{names_equal, Permission, Role};
pub use store::{AccountId, AuthStore};
