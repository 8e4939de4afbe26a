//! Bootstrap layer of a webview application shell: which capability modules a
//! build activates, the safe-area bridge command, and the startup sequence
//! that assembles the application before the runtime takes over.
pub mod insets;
pub mod platform;
pub mod registry;
pub mod startup;

pub use insets::{get_safe_area_insets, SafeAreaInsets};
pub use platform::Platform;
pub use registry::{capability_modules, Capability};
pub use startup::{Phase, Startup, StartupAction, StartupFailure};
