pub mod display;
pub mod manager;
pub mod text;
pub mod usage;

pub use display::{aggregate_text, core_text};
pub use manager::PowerManager;
pub use usage::aggregate;
