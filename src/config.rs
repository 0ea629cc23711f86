use vstd::prelude::*;

verus! {

/// How often the log file rolls over.
#[derive(PartialEq, Eq, Structural, Debug, Clone, Copy)]
pub enum LogRotation {
    Hourly,
    Daily,
    Never,
}

/// Service settings, read once at start-up.
#[derive(Clone, Debug)]
pub struct Config {
    pub banned_ips_file: String,
    /// Time-to-live of the banned-IP cache, in milliseconds.
    pub cache_ttl_ms: u64,
    pub log_file: String,
    pub log_dir: String,
    pub log_rotation: LogRotation,
    pub log_max_files: usize,
    pub port: u16,
    pub hostname: String,
}

/// The raw setting values, each `None` where the setting is absent.
pub struct ConfigVars {
    pub banned_ips_file: Option<String>,
    pub cache_ttl_secs: Option<String>,
    pub log_file: Option<String>,
    pub log_dir: Option<String>,
    pub log_rotation: Option<String>,
    pub log_max_files: Option<String>,
    pub hostname: Option<String>,
    pub port: Option<String>,
}

pub const DEFAULT_CACHE_TTL_SECS: u64 = 5;

pub const DEFAULT_LOG_MAX_FILES: usize = 7;

pub const DEFAULT_PORT: u16 = 8199;

/// The value of a string of decimal digits.
pub open spec fn digits_value(d: Seq<char>) -> nat
    decreases d.len(),
{
    if d.len() == 0 {
        0
    } else {
        digits_value(d.drop_last()) * 10 + ((d.last() as u32) - ('0' as u32)) as nat
    }
}

/// The unsigned number that `s` spells: an optional `+`, then one or more
/// ASCII digits, with a value that fits in 64 bits.
pub open spec fn decimal_u64(s: Seq<char>) -> Option<u64> {
    let d = if s.len() > 0 && s[0] == '+' {
        s.drop_first()
    } else {
        s
    };
    if d.len() > 0 && (forall|i: int| 0 <= i < d.len() ==> '0' <= #[trigger] d[i] <= '9')
        && digits_value(d) <= u64::MAX {
        Some(digits_value(d) as u64)
    } else {
        None
    }
}

/// Relies on `<u64 as FromStr>::from_str` (through `str::parse`): decimal digits
/// after an optional `+`, rejected on any other character or on overflow.
#[verifier::external_body]
fn parse_u64(s: &str) -> (r: Option<u64>)
    ensures
        r == decimal_u64(s@),
{
    s.parse::<u64>().ok()
}

/// What `str::to_lowercase` makes of a string.
pub uninterp spec fn lower_of(s: Seq<char>) -> Seq<char>;

/// Relies on `str::to_lowercase`: the result depends on the characters alone.
#[verifier::external_body]
fn lowercase(s: &str) -> (r: String)
    ensures
        r@ == lower_of(s@),
{
    s.to_lowercase()
}

/// The rotation a lower-case name selects; an unknown name selects daily.
pub open spec fn rotation_named(name: Seq<char>) -> LogRotation {
    if name == "hourly"@ {
        LogRotation::Hourly
    } else if name == "never"@ {
        LogRotation::Never
    } else {
        LogRotation::Daily
    }
}

/// A string setting, or its default.
pub open spec fn text_or(v: Option<String>, default: Seq<char>) -> Seq<char> {
    match v {
        Some(s) => s@,
        None => default,
    }
}

/// A number setting that parses and is at most `max`, or its default.
pub open spec fn number_or(v: Option<String>, max: u64, default: u64) -> u64 {
    match v {
        Some(s) => match decimal_u64(s@) {
            Some(n) => if n <= max {
                n
            } else {
                default
            },
            None => default,
        },
        None => default,
    }
}

/// Seconds as milliseconds, saturating at the largest `u64`.
pub open spec fn millis_of(secs: u64) -> u64 {
    if secs * 1000 <= u64::MAX {
        (secs * 1000) as u64
    } else {
        u64::MAX
    }
}

/// The rotation a setting selects: its lower-case form names it; daily when absent.
pub open spec fn rotation_of(v: Option<String>) -> LogRotation {
    match v {
        Some(s) => rotation_named(lower_of(s@)),
        None => LogRotation::Daily,
    }
}

impl LogRotation {
    /// The rotation named by an already lower-cased setting.
    pub fn from_lowercase(name: &str) -> (r: LogRotation)
        ensures
            r == rotation_named(name@),
    {
        let n = name.to_owned();
        if n == "hourly".to_owned() {
            LogRotation::Hourly
        } else if n == "never".to_owned() {
            LogRotation::Never
        } else {
            LogRotation::Daily
        }
    }
}

fn text_setting(v: Option<String>, default: &str) -> (r: String)
    ensures
        r@ == text_or(v, default@),
{
    match v {
        Some(s) => s,
        None => default.to_owned(),
    }
}

fn number_setting(v: &Option<String>, max: u64, default: u64) -> (r: u64)
    requires
        default <= max,
    ensures
        r == number_or(*v, max, default),
        r <= max,
{
    match v {
        Some(s) => match parse_u64(s.as_str()) {
            Some(n) => if n <= max {
                n
            } else {
                default
            },
            None => default,
        },
        None => default,
    }
}

impl Config {
    /// The settings from their raw values, each absent or unparsable value
    /// replaced by its default.
    pub fn from_vars(vars: ConfigVars) -> (r: Config)
        ensures
            r.banned_ips_file@ == text_or(vars.banned_ips_file, "./banned-ips.txt"@),
            r.cache_ttl_ms == millis_of(
                number_or(vars.cache_ttl_secs, u64::MAX, DEFAULT_CACHE_TTL_SECS),
            ),
            r.log_file@ == text_or(vars.log_file, "./traefik-auth.log"@),
            r.log_dir@ == text_or(vars.log_dir, "."@),
            r.log_rotation == rotation_of(vars.log_rotation),
            r.log_max_files as u64 == number_or(
                vars.log_max_files,
                usize::MAX as u64,
                DEFAULT_LOG_MAX_FILES as u64,
            ),
            r.port as u64 == number_or(vars.port, u16::MAX as u64, DEFAULT_PORT as u64),
            r.hostname@ == text_or(vars.hostname, "0.0.0.0"@),
    {
        let secs = number_setting(&vars.cache_ttl_secs, u64::MAX, DEFAULT_CACHE_TTL_SECS);
        let cache_ttl_ms = if secs <= u64::MAX / 1000 {
            secs * 1000
        } else {
            u64::MAX
        };
        let log_max_files = number_setting(
            &vars.log_max_files,
            usize::MAX as u64,
            DEFAULT_LOG_MAX_FILES as u64,
        ) as usize;
        let port = number_setting(&vars.port, u16::MAX as u64, DEFAULT_PORT as u64) as u16;
        let log_rotation = match &vars.log_rotation {
            Some(s) => LogRotation::from_lowercase(lowercase(s.as_str()).as_str()),
            None => LogRotation::Daily,
        };
        Config {
            banned_ips_file: text_setting(vars.banned_ips_file, "./banned-ips.txt"),
            cache_ttl_ms,
            log_file: text_setting(vars.log_file, "./traefik-auth.log"),
            log_dir: text_setting(vars.log_dir, "."),
            log_rotation,
            log_max_files,
            port,
            hostname: text_setting(vars.hostname, "0.0.0.0"),
        }
    }
}

impl Default for Config {
    fn default() -> (r: Config)
        ensures
            r.banned_ips_file@ == "./banned-ips.txt"@,
            r.cache_ttl_ms == DEFAULT_CACHE_TTL_SECS * 1000,
            r.log_file@ == "./traefik-auth.log"@,
            r.log_dir@ == "."@,
            r.log_rotation == LogRotation::Daily,
            r.log_max_files == DEFAULT_LOG_MAX_FILES,
            r.port == DEFAULT_PORT,
            r.hostname@ == "0.0.0.0"@,
    {
        Config {
            banned_ips_file: "./banned-ips.txt".to_owned(),
            cache_ttl_ms: DEFAULT_CACHE_TTL_SECS * 1000,
            log_file: "./traefik-auth.log".to_owned(),
            log_dir: ".".to_owned(),
            log_rotation: LogRotation::Daily,
            log_max_files: DEFAULT_LOG_MAX_FILES,
            port: DEFAULT_PORT,
            hostname: "0.0.0.0".to_owned(),
        }
    }
}

} // verus!
