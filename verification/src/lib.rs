//! Resolves, acquires and launches the Arduino language server on behalf of
//! an editor extension.
//!
//! The library holds the decisions: the resolution precedence (explicit
//! override, PATH, remembered install, fresh download) as an event-driven
//! state machine, the release-asset selection with its fixed lookup tables,
//! the version-directory layout and cleanup plan, and the synthesis of the
//! final command line and environment. The host performs the I/O each step
//! asks for — settings lookup, PATH search, feed query, download, listing,
//! removal, permission change — and answers with the matching event.

mod command;
mod install;
mod platform;
mod release;
mod resolve;

pub use command::build_args;
pub use command::build_env;
pub use command::contains_arg;
pub use command::default_cli_config_path;
pub use command::flags_to_probe;
pub use command::has_arg;
pub use command::lemma_all_flags_supplied;
pub use command::lemma_flag_not_duplicated;
pub use command::spec_built_args;
pub use command::spec_default_cli_config_path;
pub use command::spec_flag_segment;
pub use command::synthesize_command;
pub use command::value_or;
pub use command::CommandSpec;
pub use command::FlagNeeds;
pub use install::installed_binary_path;
pub use install::lemma_cleanup_keeps_new_version;
pub use install::lemma_one_version_dir_remains;
pub use install::lemma_stale_dirs_exact;
pub use install::server_binary_name;
pub use install::spec_installed_binary_path;
pub use install::spec_server_binary_name;
pub use install::spec_stale_dirs;
pub use install::spec_version_dir;
pub use install::stale_dirs;
pub use install::version_dir;
pub use install::DirEntry;
pub use platform::arch_label;
pub use platform::os_label;
pub use platform::spec_arch_label;
pub use platform::spec_os_label;
pub use platform::Arch;
pub use platform::Os;
pub use release::asset_name;
pub use release::find_asset;
pub use release::has_asset;
pub use release::spec_asset_name;
pub use release::ReleaseAsset;
pub use release::ReleaseInfo;
pub use resolve::event_fits;
pub use resolve::is_cleanup_request;
pub use resolve::is_host_request;
pub use resolve::is_network_request;
pub use resolve::lemma_installed_resolution_skips_install;
pub use resolve::lemma_missing_asset_message_mentions_name;
pub use resolve::lemma_no_matching_asset_fails;
pub use resolve::lemma_override_short_circuits;
pub use resolve::lemma_stale_cache_falls_through;
pub use resolve::lemma_resolution_terminates;
pub use resolve::mentions;
pub use resolve::rank;
pub use resolve::release_step_post;
pub use resolve::spec_error_message;
pub use resolve::step_post;
pub use resolve::Event;
pub use resolve::InstallTarget;
pub use resolve::ResolveError;
pub use resolve::Resolver;
pub use resolve::Step;
