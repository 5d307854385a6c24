//! Core engine of a game-client launcher: version-profile resolution with
//! inheritance merging, conditional-rule evaluation, launch-argument
//! construction, library/asset download-descriptor resolution, and the
//! decision logic of the checksum-verified download pipeline.

mod acquire;
mod arguments;
mod error;
mod library;
mod options;
mod profile;
mod rules;
mod strutil;

pub use acquire::acquire_next;
pub use acquire::lemma_no_sidecar_write_after_transfer;
pub use acquire::lemma_stale_existing_file_redownloaded;
pub use acquire::lemma_transfer_mismatch_is_fatal;
pub use acquire::lemma_valid_existing_file_skips_network;
pub use acquire::run_events;
pub use acquire::start_spec;
pub use acquire::AcquireAction;
pub use acquire::AcquireEvent;
pub use acquire::AcquireFailure;
pub use acquire::AcquireMachine;
pub use acquire::AcquireState;
pub use acquire::AcquireStatus;
pub use arguments::expand_arguments;
pub use arguments::argument_included;
pub use arguments::game_args;
pub use arguments::jvm_preamble;
pub use arguments::jvm_tail;
pub use arguments::value_tokens;
pub use arguments::Argument;
pub use arguments::ArgumentDeclaration;
pub use arguments::ArgumentValue;
pub use arguments::Arguments;
pub use arguments::LaunchingParameter;
pub use arguments::V14ArgumentDeclaration;
pub use arguments::V21ArgumentDeclaration;
pub use error::LauncherError;
pub use library::explicit_artifact;
pub use library::get_maven_artifact_path;
pub use library::maven_artifact_path;
pub use library::maven_parts;
pub use library::repository_base;
pub use library::Library;
pub use library::LibraryArtifact;
pub use library::LibraryDownloadInfo;
pub use library::LibraryDownloads;
pub use options::default_concurrent_downloads;
pub use options::LauncherOptions;
pub use options::LoginData;
pub use options::theme_for_mode;
pub use options::ThemeMode;
pub use profile::compatible_schemas;
pub use profile::lemma_merge_repetition;
pub use profile::merge_larger_spec;
pub use profile::merge_opt;
pub use profile::merged_schema;
pub use profile::AssetIndex;
pub use profile::AssetIndexLocation;
pub use profile::AssetObject;
pub use profile::Download;
pub use profile::Downloads;
pub use profile::Logging;
pub use profile::ManifestVersion;
pub use profile::VersionManifest;
pub use profile::VersionProfile;
pub use rules::eval_rules;
pub use rules::eval_rules_from;
pub use rules::evaluate;
pub use rules::feature_enabled;
pub use rules::features_rule_matches;
pub use rules::lemma_eval_rules_last_match;
pub use rules::lemma_eval_rules_no_match;
pub use rules::os_rule_matches;
pub use rules::rule_matches;
pub use rules::Architecture;
pub use rules::HostInfo;
pub use rules::OsRule;
pub use rules::Rule;
pub use rules::RuleAction;
pub use strutil::bool_rep;
pub use strutil::bool_to_string;
pub use strutil::decimal_rep;
pub use strutil::nonempty_tokens;
pub use strutil::replace_char;
pub use strutil::replace_char_exec;
pub use strutil::seq_views;
pub use strutil::split_char;
pub use strutil::split_string;
pub use strutil::split_string_nonempty;
pub use strutil::u64_to_string;
