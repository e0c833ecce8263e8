//! Settings: where the log lives, whether and how it is synchronised, and
//! which days of the week a summary counts.

use crate::text::{chars_of, push_all, slice_text, string_from, text_of, texts};
use vstd::prelude::*;

verus! {

/// The settings in force. They are made once, at startup, and handed to
/// whatever needs them.
pub struct Config {
    /// The directory that holds the daily log files.
    pub log_dir: String,
    /// The remote repository to synchronise with, if any.
    pub git_repo: Option<String>,
    /// Whether to synchronise after every entry; unset counts as no.
    pub git_auto_sync: Option<bool>,
    /// The branch to pull from and push to.
    pub git_branch_name: String,
    /// The names of the days of the week that a summary counts.
    pub summary_days: Vec<String>,
}

/// What a configuration file says. Every key may be missing.
pub struct ConfigFile {
    pub log_dir: Option<String>,
    pub git_repo: Option<String>,
    pub git_auto_sync: Option<bool>,
    pub git_branch_name: Option<String>,
    pub summary_days: Option<Vec<String>>,
}

/// Why no settings could be made.
#[derive(Clone, Copy, Debug, PartialEq, Eq, Structural)]
pub enum ConfigError {
    /// The user's home directory is not known.
    NoHomeDirectory,
}

/// The name of the log directory inside the home directory.
pub open spec fn log_dir_name() -> Seq<char> {
    ".dailylog"@
}

/// The log directory used when none is configured: `.dailylog` in the home
/// directory, or in the current directory when the home directory is not
/// known.
pub open spec fn default_log_dir_text(home: Option<Seq<char>>) -> Seq<char> {
    match home {
        Some(h) => h + seq!['/'] + log_dir_name(),
        None => log_dir_name(),
    }
}

/// The names of the days that a summary counts when none are configured:
/// Monday to Friday.
pub open spec fn default_summary_day_names() -> Seq<Seq<char>> {
    seq!["monday"@, "tuesday"@, "wednesday"@, "thursday"@, "friday"@]
}

/// The log directory used when none is configured.
pub fn default_log_dir(home: Option<&str>) -> (dir: String)
    ensures
        dir@ == default_log_dir_text(slice_text(home)),
{
    let name = chars_of(".dailylog");
    match home {
        Some(h) => {
            let mut out = chars_of(h);
            out.push('/');
            push_all(&mut out, &name);
            proof {
                assert(out@ =~= h@ + seq!['/'] + log_dir_name());
            }
            string_from(&out)
        },
        None => string_from(&name),
    }
}

/// The branch used when none is configured.
pub fn default_branch() -> (branch: String)
    ensures
        branch@ == "master"@,
{
    "master".to_owned()
}

/// The names of the days that a summary counts when none are configured.
pub fn default_summary_days() -> (days: Vec<String>)
    ensures
        texts(days@) == default_summary_day_names(),
{
    let mut days: Vec<String> = Vec::new();
    days.push("monday".to_owned());
    days.push("tuesday".to_owned());
    days.push("wednesday".to_owned());
    days.push("thursday".to_owned());
    days.push("friday".to_owned());
    proof {
        assert(texts(days@) =~= default_summary_day_names());
    }
    days
}

/// The settings that follow from what the configuration file says, with the
/// home directory `home`. A missing file counts as one without keys.
pub open spec fn resolved(home: Seq<char>, file: Option<ConfigFile>, config: Config) -> bool {
    &&& config.log_dir@ == match file {
        Some(ConfigFile { log_dir: Some(dir), .. }) => dir@,
        _ => default_log_dir_text(Some(home)),
    }
    &&& text_of(config.git_repo) == match file {
        Some(f) => text_of(f.git_repo),
        None => None,
    }
    &&& config.git_auto_sync == match file {
        Some(f) => f.git_auto_sync,
        None => None,
    }
    &&& config.git_branch_name@ == match file {
        Some(ConfigFile { git_branch_name: Some(branch), .. }) => branch@,
        _ => "master"@,
    }
    &&& texts(config.summary_days@) == match file {
        Some(ConfigFile { summary_days: Some(days), .. }) => texts(days@),
        _ => default_summary_day_names(),
    }
}

/// Makes the settings from what was found at startup.
///
/// `home` is the user's home directory and `file` is what the configuration
/// file says; `None` stands for a file that is missing or cannot be read as
/// one. Without a home directory there are no settings. Otherwise every key
/// that the file leaves out takes its default, and a missing file gives the
/// defaults throughout.
pub fn load_config(home: Option<&str>, file: Option<ConfigFile>) -> (r: Result<
    Config,
    ConfigError,
>)
    ensures
        home is None <==> r is Err,
        r matches Ok(config) ==> resolved(home->0@, file, config),
{
    let h = match home {
        Some(h) => h,
        None => {
            return Err(ConfigError::NoHomeDirectory);
        },
    };
    let config = match file {
        Some(f) => Config {
            log_dir: match f.log_dir {
                Some(dir) => dir,
                None => default_log_dir(Some(h)),
            },
            git_repo: f.git_repo,
            git_auto_sync: f.git_auto_sync,
            git_branch_name: match f.git_branch_name {
                Some(branch) => branch,
                None => default_branch(),
            },
            summary_days: match f.summary_days {
                Some(days) => days,
                None => default_summary_days(),
            },
        },
        None => Config {
            log_dir: default_log_dir(Some(h)),
            git_repo: None,
            git_auto_sync: None,
            git_branch_name: default_branch(),
            summary_days: default_summary_days(),
        },
    };
    Ok(config)
}

} // verus!
