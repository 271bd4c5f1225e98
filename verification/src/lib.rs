pub mod klebs_fix_baby_rust;
pub mod klebs_plugin_interface;

pub use klebs_fix_baby_rust::KlebsFixBabyRustConfig;
pub use klebs_plugin_interface::compute_dylib_checksum;
pub use klebs_plugin_interface::default_entrypoint_symbol_name;
pub use klebs_plugin_interface::CreatePluginError;
pub use klebs_plugin_interface::KlebsPluginInterface;
pub use klebs_plugin_interface::ReloadEvent;
pub use klebs_plugin_interface::ReloadOutcome;
pub use klebs_plugin_interface::Triad;
