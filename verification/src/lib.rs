pub mod format;
pub mod run;
pub mod timer;

pub use timer::Timer;
