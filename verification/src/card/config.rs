//! Where the `card` command's database lives: an explicit flag, then the
//! environment, then the factory home's dot-env file, then the default
//! under the factory home.
use vstd::prelude::*;

use crate::card::console::ConfigSource;
use crate::path::{push_path, push_segment};

use crate::text::{chars_of, str_eq, string_from_chars};

verus! {

/// The environment variable naming the database.
pub const DB_ENV_VAR: &'static str = "DAEMAR_DB";

/// The factory home, under the user's home directory.
pub const FACTORY_HOME: &'static str = ".daemar";

/// The database file name under the factory home.
pub const DB_FILE: &'static str = "daemar.db";

/// The dot-env file name under the factory home.
pub const ENV_FILE: &'static str = ".env";

/// The resolved database path and what resolved it.
#[derive(Debug, Clone, PartialEq, Eq)]
pub struct Config {
    pub db_path: String,
    pub source: ConfigSource,
}

/// How far resolution got without reading the dot-env file.
#[derive(Debug, Clone, PartialEq, Eq)]
pub enum Resolution {
    /// Resolved by the flag or the environment.
    Resolved(Config),
    /// The dot-env file under this factory home decides.
    ReadDotEnv { factory_home: String },
    /// The factory home cannot be found: `HOME` is not set.
    NoHome,
}

/// Resolve the database path from the flag, the `DAEMAR_DB` environment
/// variable and `HOME`, in that order of precedence.
pub fn resolve_config(flag: Option<String>, env_db: Option<String>, home: Option<String>) -> (r:
    Resolution)
    ensures
        flag matches Some(f) ==> r == Resolution::Resolved(
            Config { db_path: f, source: ConfigSource::Flag },
        ),
        flag is None && env_db is Some ==> r == Resolution::Resolved(
            Config { db_path: env_db->0, source: ConfigSource::Env },
        ),
        flag is None && env_db is None && home is None ==> r == Resolution::NoHome,
        flag is None && env_db is None && home is Some ==> (r matches Resolution::ReadDotEnv {
            factory_home,
        } && factory_home@ == push_path(home->0@, FACTORY_HOME@)),
{
    match flag {
        Some(f) => Resolution::Resolved(Config { db_path: f, source: ConfigSource::Flag }),
        None => match env_db {
            Some(e) => Resolution::Resolved(Config { db_path: e, source: ConfigSource::Env }),
            None => match home {
                None => Resolution::NoHome,
                Some(h) => {
                    let mut p = chars_of(h.as_str());
                    let seg = chars_of(FACTORY_HOME);
                    push_segment(&mut p, &seg);
                    Resolution::ReadDotEnv { factory_home: string_from_chars(&p) }
                },
            },
        },
    }
}

/// The dot-env file under a factory home.
pub fn env_file(factory_home: &str) -> (r: String)
    ensures
        r@ == push_path(factory_home@, ENV_FILE@),
{
    let mut p = chars_of(factory_home);
    let seg = chars_of(ENV_FILE);
    push_segment(&mut p, &seg);
    string_from_chars(&p)
}

/// The value of the first declaration of `DAEMAR_DB` among dot-env
/// entries: the first declaration wins.
pub open spec fn first_db_value(keys: Seq<Seq<char>>, values: Seq<Seq<char>>, i: int) -> Option<
    Seq<char>,
>
    decreases keys.len() - i,
{
    if i < 0 || i >= keys.len() {
        None
    } else if keys[i] == DB_ENV_VAR@ {
        Some(values[i])
    } else {
        first_db_value(keys, values, i + 1)
    }
}

/// The keys of dot-env entries.
pub open spec fn entry_keys(entries: Seq<(String, String)>) -> Seq<Seq<char>> {
    entries.map_values(|e: (String, String)| e.0@)
}

/// The values of dot-env entries.
pub open spec fn entry_values(entries: Seq<(String, String)>) -> Seq<Seq<char>> {
    entries.map_values(|e: (String, String)| e.1@)
}

/// The database path a dot-env file declares, if it declares one.
pub fn select_dotenv_db(entries: &Vec<(String, String)>) -> (r: Option<String>)
    ensures
        r matches Some(v) ==> first_db_value(entry_keys(entries@), entry_values(entries@), 0)
            == Some(v@),
        r is None ==> first_db_value(entry_keys(entries@), entry_values(entries@), 0) is None,
{
    let ghost ks = entry_keys(entries@);
    let ghost vs = entry_values(entries@);
    let mut i: usize = 0;
    while i < entries.len()
        invariant
            i <= entries.len(),
            ks == entry_keys(entries@),
            vs == entry_values(entries@),
            first_db_value(ks, vs, i as int) == first_db_value(ks, vs, 0),
        decreases entries.len() - i,
    {
        if str_eq(entries[i].0.as_str(), DB_ENV_VAR) {
            return Some(entries[i].1.clone());
        }
        i = i + 1;
    }
    None
}

/// The configuration once the dot-env file has been read: its declaration
/// when it has one, else the default database under the factory home.
pub fn finish_config(factory_home: &str, dotenv_db: Option<String>) -> (r: Config)
    ensures
        dotenv_db matches Some(p) ==> r == (Config { db_path: p, source: ConfigSource::DotEnv }),
        dotenv_db is None ==> r.source == ConfigSource::Default && r.db_path@ == push_path(
            factory_home@,
            DB_FILE@,
        ),
{
    match dotenv_db {
        Some(p) => Config { db_path: p, source: ConfigSource::DotEnv },
        None => {
            let mut p = chars_of(factory_home);
            let seg = chars_of(DB_FILE);
            push_segment(&mut p, &seg);
            Config { db_path: string_from_chars(&p), source: ConfigSource::Default }
        },
    }
}

} // verus!
