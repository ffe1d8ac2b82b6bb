//! Bookkeeping for the application icon: the icon shown by the running
//! process, the icon saved in the configuration, the icon last written to
//! the installed bundle, and the stack of settings panels that preview icons.
//!
//! `bundle_path` decides which launch paths are application bundles,
//! `model` holds the mathematical model and what each operation does to it,
//! `icon_state` the executable state and its operations, and `laws` the
//! properties that span several operations.
pub mod bundle_path;
pub mod icon_state;
pub mod laws;
pub mod model;
