//! Launching and supervising the browser process: where the executable is
//! found, which port and profile directory it gets, how its debug endpoint
//! is found in its log, in which order it is torn down, and how one shared
//! browser is kept alive.
//!
//! Nothing here touches the file system, the network or the process table.
//! The program that does hands in what it found and is told what to do.

pub mod browser_config;
pub mod capture;
pub mod endpoint;
pub mod executable;
pub mod launch;
pub mod port;
pub mod profile;
pub mod registry;
pub mod teardown;

pub use browser_config::BrowserConfig;
pub use capture::{hidpi_options, CaptureAction, CaptureJob};
pub use endpoint::{endpoint_of_line, EndpointScan, ENDPOINT_PATTERN};
pub use executable::{
    browser_commands, browser_registry_keys, default_executable, find_chrome, is_sandboxed,
    well_known_paths, Candidate, PathHit, Platform, Probes, EXECUTABLE_VARIABLE,
};
pub use launch::{launch_args, Launch, LaunchAction};
pub use port::{get_available_port, FIRST_PORT, PORT_LIMIT};
pub use profile::{
    fresh_profile_name, profile_dir_name, STAMP_FORMAT, STAMP_LENGTH, SUFFIX_LENGTH,
};
pub use registry::{close_blank_page, is_alive, Access, Registry};
pub use teardown::{removal_pause_ms, Teardown, TeardownAction, REMOVAL_RETRIES, SETTLE_PAUSE_MS};
