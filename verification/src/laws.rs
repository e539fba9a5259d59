//! What holds of the library as a whole.

pub mod buttons;
pub mod calls;
pub mod encoding;
pub mod input;
pub mod naming;
pub mod nesting;
pub mod numbers;
pub mod opening;
pub mod reactions;
pub mod run;
pub mod scope;
pub mod sizes;
