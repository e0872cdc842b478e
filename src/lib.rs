//! Rule-driven process watchdog: the process and rule model, rule
//! matching, detection, the termination escalation state machine, the
//! decisions of the scan/act daemon loop, reading processes out of `/proc`
//! texts, and one-line text forms for logs.
pub mod daemon;
pub mod engine;
pub mod format;
pub mod matcher;
pub mod model;
pub mod procfs;
pub mod terminate;
