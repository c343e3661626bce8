pub mod history;
pub mod metrics;
pub mod state;
pub mod palette;
pub mod scheduler;
pub mod layout;
