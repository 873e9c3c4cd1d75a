//! The bot's settings, made from the values of its environment variables.

use vstd::prelude::*;

verus! {

broadcast use vstd::string::group_string_axioms;

/// The settings the bot runs with.
#[derive(Debug, Clone)]
pub struct Config {
    pub telegram_token: String,
    pub telegram_bot_username: String,
    /// The one group the bot answers in; 0 lets it answer in every group.
    pub allowed_group_id: i64,
    pub database_dsn: String,
    pub redis_url: String,
}

/// A setting that has no default and was not given.
#[derive(Debug, Clone, Copy, PartialEq, Eq, Structural)]
pub enum ConfigError {
    /// `TELEGRAM_TOKEN` is not set.
    MissingTelegramToken,
    /// `DATABASE_DSN` is not set.
    MissingDatabaseDsn,
}

/// The Redis URL used when none is given.
pub open spec fn default_redis_url() -> Seq<char> {
    "redis://127.0.0.1/"@
}

/// `c` is one of the ASCII digits `0`..`9`.
pub open spec fn is_decimal_digit(c: char) -> bool {
    0x30 <= (c as u32) <= 0x39
}

/// The value of a string of decimal digits.
pub open spec fn digits_value(s: Seq<char>) -> int
    decreases s.len(),
{
    if s.len() == 0 {
        0
    } else {
        digits_value(s.drop_last()) * 10 + ((s.last() as u32) - 0x30)
    }
}

/// What `i64::from_str` gives for `s`: an optional `+` or `-` sign followed
/// by one or more ASCII digits, whose value fits in an `i64`; anything else
/// (an empty string, white space, other characters, overflow) is an error.
pub open spec fn parse_i64_spec(s: Seq<char>) -> Option<i64> {
    let signed = s.len() > 0 && (s[0] == '+' || s[0] == '-');
    let negative = s.len() > 0 && s[0] == '-';
    let digits = if signed {
        s.drop_first()
    } else {
        s
    };
    if digits.len() > 0 && (forall|i: int| 0 <= i < digits.len() ==> is_decimal_digit(digits[i])) {
        let v = if negative {
            -digits_value(digits)
        } else {
            digits_value(digits)
        };
        if i64::MIN <= v <= i64::MAX {
            Some(v as i64)
        } else {
            None
        }
    } else {
        None
    }
}

/// The allowed group made of an optional value: a value that parses as an
/// `i64` gives that number; a missing or malformed one gives 0.
pub open spec fn group_id_spec(value: Option<String>) -> i64 {
    match value {
        Some(s) => match parse_i64_spec(s@) {
            Some(v) => v,
            None => 0,
        },
        None => 0,
    }
}

/// Parses a decimal `i64` (`str::parse::<i64>`).
#[verifier::external_body]
fn parse_i64(s: &str) -> (r: Option<i64>)
    ensures
        r == parse_i64_spec(s@),
{
    s.parse::<i64>().ok()
}

impl Config {
    /// The settings made of the values of `TELEGRAM_TOKEN`,
    /// `TELEGRAM_BOT_USERNAME`, `TELEGRAM_GROUP_ID`, `DATABASE_DSN` and
    /// `REDIS_URL` (`None` where a variable is unset). The token and the
    /// database DSN are required, in that order; the username defaults to the
    /// empty string, the group to 0 (also when it is not a number), and the
    /// Redis URL to `redis://127.0.0.1/`.
    pub fn from_vars(
        telegram_token: Option<String>,
        telegram_bot_username: Option<String>,
        telegram_group_id: Option<String>,
        database_dsn: Option<String>,
        redis_url: Option<String>,
    ) -> (r: Result<Config, ConfigError>)
        ensures
            telegram_token is None ==> r == Err::<Config, ConfigError>(
                ConfigError::MissingTelegramToken,
            ),
            telegram_token is Some && database_dsn is None ==> r == Err::<Config, ConfigError>(
                ConfigError::MissingDatabaseDsn,
            ),
            telegram_token is Some && database_dsn is Some <==> r is Ok,
            r matches Ok(cfg) ==> {
                &&& cfg.telegram_token@ == telegram_token->0@
                &&& cfg.telegram_bot_username@ == match telegram_bot_username {
                    Some(u) => u@,
                    None => Seq::<char>::empty(),
                }
                &&& cfg.allowed_group_id == group_id_spec(telegram_group_id)
                &&& cfg.database_dsn@ == database_dsn->0@
                &&& cfg.redis_url@ == match redis_url {
                    Some(u) => u@,
                    None => default_redis_url(),
                }
            },
    {
        let telegram_token = match telegram_token {
            Some(t) => t,
            None => {
                return Err(ConfigError::MissingTelegramToken);
            },
        };
        let telegram_bot_username = match telegram_bot_username {
            Some(u) => u,
            None => String::new(),
        };
        let allowed_group_id = match &telegram_group_id {
            Some(g) => match parse_i64(g.as_str()) {
                Some(v) => v,
                None => 0,
            },
            None => 0,
        };
        let database_dsn = match database_dsn {
            Some(d) => d,
            None => {
                return Err(ConfigError::MissingDatabaseDsn);
            },
        };
        let redis_url = match redis_url {
            Some(u) => u,
            None => String::from_str("redis://127.0.0.1/"),
        };
        Ok(Config {
            telegram_token,
            telegram_bot_username,
            allowed_group_id,
            database_dsn,
            redis_url,
        })
    }
}


/// The defaults: a missing group id, or one that is not an optional sign and
/// ASCII digits with an `i64` value, gives 0; a well-formed one gives its
/// value; a missing Redis URL gives `redis://127.0.0.1/`.
pub proof fn lemma_config_defaults(value: Option<String>)
    ensures
        default_redis_url() == "redis://127.0.0.1/"@,
        value is None ==> group_id_spec(value) == 0,
        value matches Some(s) ==> (parse_i64_spec(s@) is None ==> group_id_spec(value) == 0),
        value matches Some(s) ==> (parse_i64_spec(s@) matches Some(v) ==> group_id_spec(value)
            == v),
{
}

} // verus!
