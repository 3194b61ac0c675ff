//! Launch configuration: the paths and addresses one launch attempt needs,
//! assembled from optional environment values. A missing value is fatal
//! and never retried.

use vstd::prelude::*;
use crate::text::dec_chars;

verus! {

/// First port of the default scan range.
pub const PORT_RANGE_START: u16 = 3000;

/// One past the last port of the default scan range.
pub const PORT_RANGE_END: u16 = 8000;

/// Everything one launch attempt needs. Immutable per attempt.
pub struct LaunchConfig {
    /// Path of the bundled interpreter executable.
    pub interpreter_path: String,
    /// The interpreter's home directory.
    pub interpreter_home: String,
    /// Path of the script that starts the web application.
    pub entry_script_path: String,
    /// Directory of the interpreter's installed libraries.
    pub library_path: String,
    /// Directory of the web application's content.
    pub app_content_path: String,
    /// Configured base URL of the service.
    pub base_url: String,
    /// First port of the scan range.
    pub port_start: u16,
    /// One past the last port of the scan range.
    pub port_end: u16,
}

/// A required configuration value was absent.
pub struct ConfigError {
    /// Name of the missing value.
    pub name: String,
}

impl LaunchConfig {
    pub open spec fn wf(self) -> bool {
        self.port_start <= self.port_end
    }

    /// Assembles a configuration from the six environment values, with the
    /// default port range. Reports the first missing value, in the order
    /// the fields are listed.
    pub fn from_values(
        interpreter_path: Option<String>,
        interpreter_home: Option<String>,
        entry_script_path: Option<String>,
        library_path: Option<String>,
        app_content_path: Option<String>,
        base_url: Option<String>,
    ) -> (r: Result<LaunchConfig, ConfigError>)
        ensures
            r is Ok <==> {
                &&& interpreter_path is Some
                &&& interpreter_home is Some
                &&& entry_script_path is Some
                &&& library_path is Some
                &&& app_content_path is Some
                &&& base_url is Some
            },
            r matches Ok(c) ==> {
                &&& c.wf()
                &&& interpreter_path matches Some(s) && c.interpreter_path@ == s@
                &&& interpreter_home matches Some(s) && c.interpreter_home@ == s@
                &&& entry_script_path matches Some(s) && c.entry_script_path@ == s@
                &&& library_path matches Some(s) && c.library_path@ == s@
                &&& app_content_path matches Some(s) && c.app_content_path@ == s@
                &&& base_url matches Some(s) && c.base_url@ == s@
                &&& c.port_start == PORT_RANGE_START
                &&& c.port_end == PORT_RANGE_END
            },
            r matches Err(e) ==> e.name@ == {
                if interpreter_path is None {
                    "INTERPRETER_EXECUTABLE_PATH"@
                } else if interpreter_home is None {
                    "INTERPRETER_HOME_DIR"@
                } else if entry_script_path is None {
                    "APP_ENTRY_SCRIPT_PATH"@
                } else if library_path is None {
                    "LIBRARY_PATH"@
                } else if app_content_path is None {
                    "APP_CONTENT_PATH"@
                } else {
                    "SERVICE_BASE_URL"@
                }
            },
    {
        let interpreter_path = match interpreter_path {
            Some(s) => s,
            None => {
                return Err(ConfigError { name: String::from_str("INTERPRETER_EXECUTABLE_PATH") });
            },
        };
        let interpreter_home = match interpreter_home {
            Some(s) => s,
            None => {
                return Err(ConfigError { name: String::from_str("INTERPRETER_HOME_DIR") });
            },
        };
        let entry_script_path = match entry_script_path {
            Some(s) => s,
            None => {
                return Err(ConfigError { name: String::from_str("APP_ENTRY_SCRIPT_PATH") });
            },
        };
        let library_path = match library_path {
            Some(s) => s,
            None => {
                return Err(ConfigError { name: String::from_str("LIBRARY_PATH") });
            },
        };
        let app_content_path = match app_content_path {
            Some(s) => s,
            None => {
                return Err(ConfigError { name: String::from_str("APP_CONTENT_PATH") });
            },
        };
        let base_url = match base_url {
            Some(s) => s,
            None => {
                return Err(ConfigError { name: String::from_str("SERVICE_BASE_URL") });
            },
        };
        Ok(LaunchConfig {
            interpreter_path,
            interpreter_home,
            entry_script_path,
            library_path,
            app_content_path,
            base_url,
            port_start: PORT_RANGE_START,
            port_end: PORT_RANGE_END,
        })
    }

    /// The argument list handed to the interpreter: its vanilla-session
    /// flag, the entry script, and the script's verbose flag, in that
    /// order.
    pub fn spawn_args(&self) -> (r: Vec<String>)
        ensures
            r@.len() == 3,
            r@[0]@ == "--vanilla"@,
            r@[1]@ == self.entry_script_path@,
            r@[2]@ == "--verbose"@,
    {
        let mut v: Vec<String> = Vec::new();
        v.push(String::from_str("--vanilla"));
        v.push(self.entry_script_path.clone());
        v.push(String::from_str("--verbose"));
        v
    }

    /// The child's environment: the interpreter home under both of its
    /// accepted names, the bind port and host, the application content
    /// path, and the library path under its plain, user and site names.
    pub fn spawn_env(&self, port: u16) -> (r: Vec<(String, String)>)
        ensures
            r@.len() == 8,
            r@[0].0@ == "INTERPRETER_HOME"@ && r@[0].1@ == self.interpreter_home@,
            r@[1].0@ == "INTERPRETER_HOME_DIR"@ && r@[1].1@ == self.interpreter_home@,
            r@[2].0@ == "SERVICE_PORT"@ && r@[2].1@ == dec_chars(port as nat),
            r@[3].0@ == "SERVICE_APP_PATH"@ && r@[3].1@ == self.app_content_path@,
            r@[4].0@ == "SERVICE_HOST"@ && r@[4].1@ == "0.0.0.0"@,
            r@[5].0@ == "LIBRARY_PATH"@ && r@[5].1@ == self.library_path@,
            r@[6].0@ == "LIBRARY_PATH_USER"@ && r@[6].1@ == self.library_path@,
            r@[7].0@ == "LIBRARY_PATH_SITE"@ && r@[7].1@ == self.library_path@,
    {
        let mut v: Vec<(String, String)> = Vec::new();
        v.push((String::from_str("INTERPRETER_HOME"), self.interpreter_home.clone()));
        v.push((String::from_str("INTERPRETER_HOME_DIR"), self.interpreter_home.clone()));
        v.push((String::from_str("SERVICE_PORT"), crate::text::u64_to_string(port as u64)));
        v.push((String::from_str("SERVICE_APP_PATH"), self.app_content_path.clone()));
        v.push((String::from_str("SERVICE_HOST"), String::from_str("0.0.0.0")));
        v.push((String::from_str("LIBRARY_PATH"), self.library_path.clone()));
        v.push((String::from_str("LIBRARY_PATH_USER"), self.library_path.clone()));
        v.push((String::from_str("LIBRARY_PATH_SITE"), self.library_path.clone()));
        v
    }
}

} // verus!
