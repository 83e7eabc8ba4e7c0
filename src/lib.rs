//! Safe access to the firmware runtime-services table: the variable protocol
//! (read with buffer negotiation, write, enumerate, query) and the one-time
//! binding of the table.

pub mod binding;
pub mod negotiation;
pub mod services;
pub mod status;
pub mod store;
pub mod variable;

pub use binding::{TableError, TableHandle};
pub use services::RuntimeServices;
pub use status::{GetVariableStatus, Status, VariableInfo};
