//! Agent configuration: its schema, validation and loading from the
//! environment and from configuration texts.

pub mod loader;
pub mod schema;
pub mod validator;
pub mod paths;
pub mod precedence;
