//! Settings of the tool and where they are kept.

use vstd::prelude::*;
use crate::error::GmuxError;

verus! {

pub const DEFAULT_PR_TEMPLATE_NAME: &'static str = "pr_template.md";

pub const DEFAULT_CONFIG_DIR: &'static str = ".gmux";

pub const DEFAULT_CONFIG_FILE: &'static str = "config.json";

pub const DEFAULT_PR_TEMPLATE: &'static str =
    "# {{ title }}\n\n## Changes\n{% for file in diff_files %}\n- {{ file }}\n{% endfor %}\n\n## Repository\n{{ repository_name }}\n";

/// The operator's GitHub settings.
#[derive(Debug, Clone)]
pub struct Config {
    pub github_token: String,
    pub default_org: String,
    pub per_page: u8,
    pub sort: String,
    pub direction: String,
}

pub fn default_per_page() -> (r: u8)
    ensures
        r == 100,
{
    100
}

pub fn default_sort() -> (r: String)
    ensures
        r@ == "updated"@,
{
    String::from_str("updated")
}

pub fn default_direction() -> (r: String)
    ensures
        r@ == "desc"@,
{
    String::from_str("desc")
}

impl Default for Config {
    /// No token and no organisation; a hundred repositories to a page, the
    /// most recently updated first.
    fn default() -> (r: Self)
        ensures
            r.github_token@.len() == 0,
            r.default_org@.len() == 0,
            r.per_page == 100,
            r.sort@ == "updated"@,
            r.direction@ == "desc"@,
    {
        Config {
            github_token: String::new(),
            default_org: String::new(),
            per_page: default_per_page(),
            sort: default_sort(),
            direction: default_direction(),
        }
    }
}

impl Config {
    /// A configuration is usable when it names both a token and an
    /// organisation; the token is checked first.
    pub fn validate(&self) -> (r: Result<(), GmuxError>)
        ensures
            r is Ok <==> (self.github_token@.len() > 0 && self.default_org@.len() > 0),
            self.github_token@.len() == 0 ==> (r matches Err(GmuxError::Config(m)) && m@
                == "GitHub token is required"@),
            self.github_token@.len() > 0 && self.default_org@.len() == 0 ==> (r matches Err(
                GmuxError::Config(m),
            ) && m@ == "Default organization is required"@),
    {
        if self.github_token.as_str().unicode_len() == 0 {
            return Err(GmuxError::Config(String::from_str("GitHub token is required")));
        }
        if self.default_org.as_str().unicode_len() == 0 {
            return Err(GmuxError::Config(String::from_str("Default organization is required")));
        }
        Ok(())
    }
}

/// `name` appended to the directory `base`, with one `/` between them.
pub open spec fn joined(base: Seq<char>, name: Seq<char>) -> Seq<char> {
    if base.len() == 0 {
        name
    } else if base.last() == '/' {
        base + name
    } else {
        base + seq!['/'] + name
    }
}

/// The relative path `name` under the directory `base`.
pub fn join_path(base: &str, name: &str) -> (r: String)
    ensures
        r@ == joined(base@, name@),
{
    let n = base.unicode_len();
    if n == 0 {
        return String::from_str(name);
    }
    let mut r = String::from_str(base);
    if base.get_char(n - 1) != '/' {
        proof {
            reveal_strlit("/");
        }
        r.append("/");
        assert("/"@ =~= seq!['/']);
    }
    r.append(name);
    r
}

/// The directory of the settings: the one named by the override where there
/// is one, else `.gmux` under the home directory, or under `.` where the
/// home directory is unknown.
pub fn get_config_dir(override_dir: Option<&str>, home: Option<&str>) -> (r: String)
    ensures
        override_dir matches Some(d) ==> r@ == d@,
        override_dir is None ==> (home matches Some(h) ==> r@ == joined(h@, DEFAULT_CONFIG_DIR@)),
        override_dir is None && home is None ==> r@ == joined("."@, DEFAULT_CONFIG_DIR@),
{
    match override_dir {
        Some(d) => String::from_str(d),
        None => match home {
            Some(h) => join_path(h, DEFAULT_CONFIG_DIR),
            None => join_path(".", DEFAULT_CONFIG_DIR),
        },
    }
}

/// Where the settings file lies in the directory of the settings.
pub fn get_config_path(config_dir: &str) -> (r: String)
    ensures
        r@ == joined(config_dir@, DEFAULT_CONFIG_FILE@),
{
    join_path(config_dir, DEFAULT_CONFIG_FILE)
}

/// Where the pull-request template lies in the directory of the settings.
pub fn get_template_path(config_dir: &str) -> (r: String)
    ensures
        r@ == joined(config_dir@, DEFAULT_PR_TEMPLATE_NAME@),
{
    join_path(config_dir, DEFAULT_PR_TEMPLATE_NAME)
}

} // verus!
