//! Configuration: which services are set up, read from a sectioned
//! key/value text file, plus the identifiers under which each service's
//! credential is stored.
//!
//! The file holds at most one `[github]` section (keys `host` and
//! `username`) and one `[jira]` section (keys `host` and `email`).  Keys
//! take double-quoted values; blank lines and `#` comments are skipped;
//! when a key repeats inside its section the last value wins.  A section
//! that is absent means the service is not configured and is skipped by
//! every flow.

use vstd::prelude::*;
use vstd::string::StrSliceExecFns;
use vstd::string::StringExecFns;
use crate::text::{split_lines, split_str_lines, str_eq, trim_spec, trim_str};

verus! {

/// Fully loaded configuration: each configured service together with the
/// credential retrieved for it.
#[derive(Debug)]
pub struct Config {
    pub github: Option<GitHubConfig>,
    pub jira: Option<JiraConfig>,
}

#[derive(Debug)]
pub struct GitHubConfig {
    pub host: String,
    pub username: String,
    pub api_token: String,
}

#[derive(Debug)]
pub struct JiraConfig {
    pub email: String,
    pub host: String,
    pub api_token: String,
}

/// The accounts found in the configuration file: the services that need
/// to be authenticated for.
#[derive(Debug)]
pub struct ConfiguredServices {
    pub github: Option<String>,
    pub jira: Option<String>,
}

/// A service whose credential lives in the secret store.
#[derive(Clone, Copy, Debug, PartialEq, Eq, Structural)]
pub enum ApiService {
    GitHub,
    Jira,
}

/// Why a configuration could not be loaded.
#[derive(Clone, Debug, PartialEq, Eq)]
pub enum ConfigError {
    /// The configuration file does not exist (or could not be read) at
    /// this path.
    FileNotFound(String),
    /// This line of the file is not a section header, a quoted key/value
    /// pair in a known section, a comment, or blank (lines count from 0).
    Malformed { line: usize },
    /// A section is present but one of its required keys never appeared.
    MissingField(ApiService),
}

/// The two sections of the file, as parsed.
#[derive(Debug)]
pub struct TomlConfig {
    pub github: Option<TomlGitHubConfig>,
    pub jira: Option<TomlJiraConfig>,
}

#[derive(Debug)]
pub struct TomlGitHubConfig {
    pub host: String,
    pub username: String,
}

#[derive(Debug)]
pub struct TomlJiraConfig {
    pub host: String,
    pub email: String,
}

/// The mathematical shape of a parsed configuration.
pub struct ConfigModel {
    pub github: Option<GitHubSectionModel>,
    pub jira: Option<JiraSectionModel>,
}

pub struct GitHubSectionModel {
    pub host: Seq<char>,
    pub username: Seq<char>,
}

pub struct JiraSectionModel {
    pub host: Seq<char>,
    pub email: Seq<char>,
}

impl View for TomlConfig {
    type V = ConfigModel;

    open spec fn view(&self) -> ConfigModel {
        ConfigModel {
            github: match self.github {
                Some(g) => Some(GitHubSectionModel { host: g.host@, username: g.username@ }),
                None => None,
            },
            jira: match self.jira {
                Some(j) => Some(JiraSectionModel { host: j.host@, email: j.email@ }),
                None => None,
            },
        }
    }
}

/// What one line of the file means.
pub enum LineMeaning {
    /// Blank, or a `#` comment.
    Skip,
    SectionGithub,
    SectionJira,
    /// `key = "value"`, as trimmed key and unquoted value.
    Pair(Seq<char>, Seq<char>),
    Bad,
}

/// Whether the line holds a `=`.
pub open spec fn has_eq(s: Seq<char>) -> bool {
    exists|i: int| 0 <= i < s.len() && s[i] == '='
}

/// Index of the first `=` of the line (meaningful only when one exists).
pub open spec fn first_eq(s: Seq<char>) -> int
    decreases s.len(),
{
    if s.len() == 0 {
        0
    } else if s[0] == '=' {
        0
    } else {
        1 + first_eq(s.skip(1))
    }
}

/// A well-formed quoted value: surrounding double quotes around characters
/// that are neither quotes nor backslashes.
pub open spec fn is_quoted(v: Seq<char>) -> bool {
    &&& v.len() >= 2
    &&& v[0] == '"'
    &&& v.last() == '"'
    &&& forall|j: int| 1 <= j < v.len() - 1 ==> (#[trigger] v[j]) != '"' && v[j] != '\\'
}

/// The value inside the quotes.
pub open spec fn unquote(v: Seq<char>) -> Seq<char> {
    v.subrange(1, v.len() - 1)
}

/// Classify one raw line: after trimming it is blank or a comment, one of
/// the two known section headers, a quoted key/value pair, or malformed.
pub open spec fn classify(raw: Seq<char>) -> LineMeaning {
    let t = trim_spec(raw);
    if t.len() == 0 {
        LineMeaning::Skip
    } else if t[0] == '#' {
        LineMeaning::Skip
    } else if t == "[github]"@ {
        LineMeaning::SectionGithub
    } else if t == "[jira]"@ {
        LineMeaning::SectionJira
    } else if t[0] == '[' {
        LineMeaning::Bad
    } else if has_eq(t) {
        let k = trim_spec(t.take(first_eq(t)));
        let v = trim_spec(t.skip(first_eq(t) + 1));
        if is_quoted(v) {
            LineMeaning::Pair(k, unquote(v))
        } else {
            LineMeaning::Bad
        }
    } else {
        LineMeaning::Bad
    }
}

/// Which section subsequent key/value pairs belong to.
pub enum Section {
    Outside,
    Github,
    Jira,
}

/// The parser's state after some prefix of the lines: the open section,
/// which sections have been seen, and the last value of each key.
pub struct ParseState {
    pub cur: Section,
    pub gh_seen: bool,
    pub gh_host: Option<Seq<char>>,
    pub gh_user: Option<Seq<char>>,
    pub jr_seen: bool,
    pub jr_host: Option<Seq<char>>,
    pub jr_email: Option<Seq<char>>,
}

pub open spec fn initial_state() -> ParseState {
    ParseState {
        cur: Section::Outside,
        gh_seen: false,
        gh_host: None,
        gh_user: None,
        jr_seen: false,
        jr_host: None,
        jr_email: None,
    }
}

/// One step of the parser: how one line transforms the state, or `None`
/// when the line is not acceptable there (an unknown key, a pair outside
/// any section, or a malformed line).
pub open spec fn step_line(st: ParseState, raw: Seq<char>) -> Option<ParseState> {
    match classify(raw) {
        LineMeaning::Skip => Some(st),
        LineMeaning::SectionGithub => Some(ParseState { cur: Section::Github, gh_seen: true, ..st }),
        LineMeaning::SectionJira => Some(ParseState { cur: Section::Jira, jr_seen: true, ..st }),
        LineMeaning::Pair(k, v) => match st.cur {
            Section::Outside => None,
            Section::Github => if k == "host"@ {
                Some(ParseState { gh_host: Some(v), ..st })
            } else if k == "username"@ {
                Some(ParseState { gh_user: Some(v), ..st })
            } else {
                None
            },
            Section::Jira => if k == "host"@ {
                Some(ParseState { jr_host: Some(v), ..st })
            } else if k == "email"@ {
                Some(ParseState { jr_email: Some(v), ..st })
            } else {
                None
            },
        },
        LineMeaning::Bad => None,
    }
}

/// Run the parser over the lines from index `i` onward; an error carries
/// the index of the offending line.
pub open spec fn run_lines(lines: Seq<Seq<char>>, i: int, st: ParseState) -> Result<
    ParseState,
    int,
>
    decreases lines.len() - i,
{
    if i < 0 || i >= lines.len() {
        Ok(st)
    } else {
        match step_line(st, lines[i]) {
            Some(st2) => run_lines(lines, i + 1, st2),
            None => Err(i),
        }
    }
}

/// Close the file: a section that was opened must have received all its
/// keys; sections never opened are absent.
pub open spec fn finish(st: ParseState) -> Result<ConfigModel, ConfigError> {
    if st.gh_seen && (st.gh_host is None || st.gh_user is None) {
        Err(ConfigError::MissingField(ApiService::GitHub))
    } else if st.jr_seen && (st.jr_host is None || st.jr_email is None) {
        Err(ConfigError::MissingField(ApiService::Jira))
    } else {
        Ok(
            ConfigModel {
                github: if st.gh_seen {
                    Some(
                        GitHubSectionModel {
                            host: st.gh_host.unwrap(),
                            username: st.gh_user.unwrap(),
                        },
                    )
                } else {
                    None
                },
                jira: if st.jr_seen {
                    Some(JiraSectionModel { host: st.jr_host.unwrap(), email: st.jr_email.unwrap() })
                } else {
                    None
                },
            },
        )
    }
}

/// The meaning of a whole configuration text.
pub open spec fn parse_spec(text: Seq<char>) -> Result<ConfigModel, ConfigError> {
    match run_lines(split_lines(text), 0, initial_state()) {
        Ok(st) => finish(st),
        Err(i) => Err(ConfigError::Malformed { line: i as usize }),
    }
}

/// If the first `=` of `s` is at `i`, then `first_eq(s)` is `i`.
proof fn lemma_first_eq(s: Seq<char>, i: int)
    requires
        0 <= i < s.len(),
        forall|j: int| 0 <= j < i ==> (#[trigger] s[j]) != '=',
        s[i] == '=',
    ensures
        first_eq(s) == i,
    decreases i,
{
    if i == 0 {
    } else {
        assert(s[0] != '=');
        lemma_first_eq(s.skip(1), i - 1);
    }
}

/// One classified line, as executable data.
pub enum LineKind {
    Skip,
    SectionGithub,
    SectionJira,
    Pair(String, String),
    Bad,
}

/// Classify one raw line of the file.
#[verifier::loop_isolation(false)]
fn classify_line(raw: &str) -> (r: LineKind)
    ensures
        match r {
            LineKind::Skip => classify(raw@) is Skip,
            LineKind::SectionGithub => classify(raw@) is SectionGithub,
            LineKind::SectionJira => classify(raw@) is SectionJira,
            LineKind::Pair(k, v) => classify(raw@) == LineMeaning::Pair(k@, v@),
            LineKind::Bad => classify(raw@) is Bad,
        },
{
    let t = trim_str(raw);
    let n = t.unicode_len();
    if n == 0 {
        return LineKind::Skip;
    }
    let c0 = t.get_char(0);
    if c0 == '#' {
        return LineKind::Skip;
    }
    if str_eq(t, "[github]") {
        return LineKind::SectionGithub;
    }
    if str_eq(t, "[jira]") {
        return LineKind::SectionJira;
    }
    if c0 == '[' {
        return LineKind::Bad;
    }
    let mut i: usize = 0;
    while i < n && t.get_char(i) != '='
        invariant
            i <= n,
            n == t@.len(),
            forall|j: int| 0 <= j < i ==> (#[trigger] t@[j]) != '=',
        decreases n - i,
    {
        i += 1;
    }
    if i == n {
        proof {
            assert(forall|x: int| 0 <= x < t@.len() ==> (#[trigger] t@[x]) != '=');
            assert(!has_eq(t@));
        }
        return LineKind::Bad;
    }
    proof {
        lemma_first_eq(t@, i as int);
    }
    let kpart = t.substring_char(0, i);
    let k = trim_str(kpart);
    let vpart = t.substring_char(i + 1, n);
    let v = trim_str(vpart);
    proof {
        assert(kpart@ =~= t@.take(i as int));
        assert(vpart@ =~= t@.skip(i as int + 1));
    }
    let m = v.unicode_len();
    if m < 2 {
        return LineKind::Bad;
    }
    if v.get_char(0) != '"' {
        return LineKind::Bad;
    }
    if v.get_char(m - 1) != '"' {
        return LineKind::Bad;
    }
    let mut j: usize = 1;
    while j < m - 1
        invariant
            1 <= j <= m - 1,
            2 <= m == v@.len(),
            forall|x: int| 1 <= x < j ==> (#[trigger] v@[x]) != '"' && v@[x] != '\\',
        decreases m - j,
    {
        let c = v.get_char(j);
        if c == '"' || c == '\\' {
            return LineKind::Bad;
        }
        j += 1;
    }
    let inner = v.substring_char(1, m - 1);
    proof {
        assert(is_quoted(v@));
        assert(inner@ =~= unquote(v@));
    }
    LineKind::Pair(String::from_str(k), String::from_str(inner))
}

/// The parser state as the executable loop carries it.
pub open spec fn state_of(
    cur: Section,
    gh_seen: bool,
    gh_host: Option<String>,
    gh_user: Option<String>,
    jr_seen: bool,
    jr_host: Option<String>,
    jr_email: Option<String>,
) -> ParseState {
    ParseState {
        cur,
        gh_seen,
        gh_host: match gh_host {
            Some(s) => Some(s@),
            None => None,
        },
        gh_user: match gh_user {
            Some(s) => Some(s@),
            None => None,
        },
        jr_seen,
        jr_host: match jr_host {
            Some(s) => Some(s@),
            None => None,
        },
        jr_email: match jr_email {
            Some(s) => Some(s@),
            None => None,
        },
    }
}

impl TomlConfig {
    /// Parse a configuration file's text.  The result is exactly what the
    /// grammar (`parse_spec`) assigns to the text: the parsed sections on
    /// a well-formed file, and otherwise the same error the grammar
    /// assigns — `Malformed` with the index of the first offending line,
    /// or `MissingField` for an opened section that never received one of
    /// its required keys.
    pub fn from_file(content: &str) -> (r: Result<TomlConfig, ConfigError>)
        ensures
            match r {
                Ok(c) => parse_spec(content@) matches Ok(m) && c@ == m,
                Err(e) => parse_spec(content@) matches Err(e2) && e == e2,
            },
    {
        let lines = split_str_lines(content);
        let ghost ll = split_lines(content@);
        let mut cur = Section::Outside;
        let mut gh_seen = false;
        let mut gh_host: Option<String> = None;
        let mut gh_user: Option<String> = None;
        let mut jr_seen = false;
        let mut jr_host: Option<String> = None;
        let mut jr_email: Option<String> = None;
        let mut i: usize = 0;
        while i < lines.len()
            invariant
                i <= lines@.len(),
                ll == split_lines(content@),
                lines@.map_values(|l: String| l@) == ll,
                run_lines(ll, 0, initial_state()) == run_lines(
                    ll,
                    i as int,
                    state_of(cur, gh_seen, gh_host, gh_user, jr_seen, jr_host, jr_email),
                ),
            decreases lines@.len() - i,
        {
            let ghost st_now = state_of(cur, gh_seen, gh_host, gh_user, jr_seen, jr_host, jr_email);
            proof {
                assert(ll[i as int] == lines@.map_values(|l: String| l@)[i as int]);
            }
            match classify_line(lines[i].as_str()) {
                LineKind::Skip => {},
                LineKind::SectionGithub => {
                    cur = Section::Github;
                    gh_seen = true;
                },
                LineKind::SectionJira => {
                    cur = Section::Jira;
                    jr_seen = true;
                },
                LineKind::Pair(k, v) => {
                    match cur {
                        Section::Outside => {
                            proof {
                                assert(step_line(st_now, ll[i as int]) is None);
                                assert(run_lines(ll, i as int, st_now) == Err::<ParseState, int>(
                                    i as int,
                                ));
                                assert(run_lines(ll, 0, initial_state()) == Err::<ParseState, int>(
                                    i as int,
                                ));
                            }
                            return Err(ConfigError::Malformed { line: i });
                        },
                        Section::Github => {
                            if str_eq(k.as_str(), "host") {
                                gh_host = Some(v);
                            } else if str_eq(k.as_str(), "username") {
                                gh_user = Some(v);
                            } else {
                                proof {
                                    assert(run_lines(ll, i as int, st_now) == Err::<
                                        ParseState,
                                        int,
                                    >(i as int));
                                }
                                return Err(ConfigError::Malformed { line: i });
                            }
                        },
                        Section::Jira => {
                            if str_eq(k.as_str(), "host") {
                                jr_host = Some(v);
                            } else if str_eq(k.as_str(), "email") {
                                jr_email = Some(v);
                            } else {
                                proof {
                                    assert(run_lines(ll, i as int, st_now) == Err::<
                                        ParseState,
                                        int,
                                    >(i as int));
                                }
                                return Err(ConfigError::Malformed { line: i });
                            }
                        },
                    }
                },
                LineKind::Bad => {
                    proof {
                        assert(run_lines(ll, i as int, st_now) == Err::<ParseState, int>(i as int));
                    }
                    return Err(ConfigError::Malformed { line: i });
                },
            }
            proof {
                let st2 = state_of(cur, gh_seen, gh_host, gh_user, jr_seen, jr_host, jr_email);
                assert(step_line(st_now, ll[i as int]) == Some(st2));
                assert(run_lines(ll, i as int, st_now) == run_lines(ll, i as int + 1, st2));
            }
            i += 1;
        }
        let ghost st = state_of(cur, gh_seen, gh_host, gh_user, jr_seen, jr_host, jr_email);
        proof {
            assert(run_lines(ll, i as int, st) == Ok::<ParseState, int>(st));
        }
        if gh_seen && (gh_host.is_none() || gh_user.is_none()) {
            return Err(ConfigError::MissingField(ApiService::GitHub));
        }
        if jr_seen && (jr_host.is_none() || jr_email.is_none()) {
            return Err(ConfigError::MissingField(ApiService::Jira));
        }
        let github = if gh_seen {
            Some(TomlGitHubConfig { host: gh_host.unwrap(), username: gh_user.unwrap() })
        } else {
            None
        };
        let jira = if jr_seen {
            Some(TomlJiraConfig { host: jr_host.unwrap(), email: jr_email.unwrap() })
        } else {
            None
        };
        Ok(TomlConfig { github, jira })
    }
}

/// The mathematical shape of the configured-services summary.
pub struct ServicesModel {
    pub github: Option<Seq<char>>,
    pub jira: Option<Seq<char>>,
}

impl View for ConfiguredServices {
    type V = ServicesModel;

    open spec fn view(&self) -> ServicesModel {
        ServicesModel {
            github: match self.github {
                Some(s) => Some(s@),
                None => None,
            },
            jira: match self.jira {
                Some(s) => Some(s@),
                None => None,
            },
        }
    }
}

/// The account each parsed section designates: the GitHub username and
/// the Jira email.
pub open spec fn services_of(m: ConfigModel) -> ServicesModel {
    ServicesModel {
        github: match m.github {
            Some(g) => Some(g.username),
            None => None,
        },
        jira: match m.jira {
            Some(j) => Some(j.email),
            None => None,
        },
    }
}

impl ConfiguredServices {
    /// Read the configured accounts out of a configuration file's text: a
    /// parsed GitHub section contributes its username, a parsed Jira
    /// section its email; an absent section leaves its service unset.
    /// Parse errors are passed through unchanged.
    pub fn from_file(content: &str) -> (r: Result<ConfiguredServices, ConfigError>)
        ensures
            match r {
                Ok(s) => parse_spec(content@) matches Ok(m) && s@ == services_of(m),
                Err(e) => parse_spec(content@) matches Err(e2) && e == e2,
            },
    {
        match TomlConfig::from_file(content) {
            Ok(t) => Ok(
                ConfiguredServices {
                    github: match t.github {
                        Some(g) => Some(g.username),
                        None => None,
                    },
                    jira: match t.jira {
                        Some(j) => Some(j.email),
                        None => None,
                    },
                },
            ),
            Err(e) => Err(e),
        }
    }
}

impl Config {
    /// Assemble the full configuration from the parsed file and the
    /// credential retrieved from the secret store for each configured
    /// service.  Every field of each configured section is carried over
    /// exactly as parsed, paired with that service's token; services
    /// absent from the file stay absent.
    pub fn load(toml_config: TomlConfig, github_token: Option<String>, jira_token: Option<
        String,
    >) -> (r: Config)
        requires
            toml_config.github is Some ==> github_token is Some,
            toml_config.jira is Some ==> jira_token is Some,
        ensures
            r.github is Some <==> toml_config.github is Some,
            r.jira is Some <==> toml_config.jira is Some,
            toml_config.github matches Some(g) ==> r.github matches Some(gc) && gc.host@ == g.host@
                && gc.username@ == g.username@ && gc.api_token@ == github_token.unwrap()@,
            toml_config.jira matches Some(j) ==> r.jira matches Some(jc) && jc.host@ == j.host@
                && jc.email@ == j.email@ && jc.api_token@ == jira_token.unwrap()@,
    {
        let github = match toml_config.github {
            Some(g) => Some(
                GitHubConfig {
                    host: g.host,
                    username: g.username,
                    api_token: github_token.unwrap(),
                },
            ),
            None => None,
        };
        let jira = match toml_config.jira {
            Some(j) => Some(
                JiraConfig { host: j.host, email: j.email, api_token: jira_token.unwrap() },
            ),
            None => None,
        };
        Config { github, jira }
    }
}

impl ApiService {
    /// The fixed per-service identifier the credential is stored under in
    /// the secret store.
    pub fn keryring_name(&self) -> (r: &'static str)
        ensures
            self is GitHub ==> r@ == "cirro-github"@,
            self is Jira ==> r@ == "cirro-jira"@,
    {
        match self {
            ApiService::GitHub => "cirro-github",
            ApiService::Jira => "cirro-jira",
        }
    }
}

/// The credential-store writes the authenticate flow must perform: one
/// entry per configured service, GitHub first, under that service's
/// account name — and none at all when no service is configured.
pub fn authentication_plan(services: &ConfiguredServices) -> (r: Vec<(ApiService, String)>)
    ensures
        services.github is None && services.jira is None ==> r@.len() == 0,
        services.github is Some && services.jira is None ==> r@.len() == 1 && r@[0].0 is GitHub
            && r@[0].1@ == services@.github.unwrap(),
        services.github is None && services.jira is Some ==> r@.len() == 1 && r@[0].0 is Jira
            && r@[0].1@ == services@.jira.unwrap(),
        services.github is Some && services.jira is Some ==> r@.len() == 2 && r@[0].0 is GitHub
            && r@[0].1@ == services@.github.unwrap() && r@[1].0 is Jira && r@[1].1@
            == services@.jira.unwrap(),
{
    let mut plan: Vec<(ApiService, String)> = Vec::new();
    match &services.github {
        Some(u) => {
            plan.push((ApiService::GitHub, u.clone()));
        },
        None => {},
    }
    match &services.jira {
        Some(u) => {
            plan.push((ApiService::Jira, u.clone()));
        },
        None => {},
    }
    plan
}

} // verus!
