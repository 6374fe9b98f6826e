//! The configuration of a run: which rules are switched off, and which
//! migrations are looked at.

use crate::checks::{all_names, Registry};
use crate::pattern::{is_match, pattern_matches};
use crate::text::{
    ascii_digits, chars_come_after, comes_after, digits_of, join, joined, str_eq, views_of,
};
use vstd::prelude::*;

verus! {

/// A time stamp has one of three forms: `YYYY_MM_DD_HHMMSS`,
/// `YYYY-MM-DD-HHMMSS` or `YYYYMMDDHHMMSS`.
pub const TIMESTAMP_PATTERN: &'static str =
    "^(\\d{4}_\\d{2}_\\d{2}_\\d{6}|\\d{4}-\\d{2}-\\d{2}-\\d{6}|\\d{14})$";

/// Why a configuration is not valid.
#[derive(Debug)]
pub enum ConfigError {
    /// A name under `disable_checks` that is no rule's name.
    InvalidCheckName { invalid_name: String },
    /// A `start_after` that is no time stamp.
    InvalidTimestampFormat(String),
}

/// The mathematical content of a [`ConfigError`].
pub enum ConfigErrorView {
    InvalidCheckName { invalid_name: Seq<char> },
    InvalidTimestampFormat(Seq<char>),
}

impl View for ConfigError {
    type V = ConfigErrorView;

    open spec fn view(&self) -> ConfigErrorView {
        match *self {
            ConfigError::InvalidCheckName { invalid_name } => ConfigErrorView::InvalidCheckName {
                invalid_name: invalid_name@,
            },
            ConfigError::InvalidTimestampFormat(t) => ConfigErrorView::InvalidTimestampFormat(t@),
        }
    }
}

/// The list of all rule names, for the help text of an unknown name.
pub fn valid_check_names_help() -> (r: String)
    ensures
        r@ == "Valid check names: "@ + joined(all_names(), ", "@),
{
    let names = Registry::all_check_names();
    let mut owned: Vec<String> = Vec::new();
    let mut i: usize = 0;
    while i < names.len()
        invariant
            i <= names.len(),
            names@.len() == all_names().len(),
            forall|j: int| 0 <= j < names@.len() ==> names@[j]@ == all_names()[j],
            views_of(owned@) == all_names().take(i as int),
        decreases names.len() - i,
    {
        let name = String::from_str(names[i]);
        proof {
            assert(views_of(owned@.push(name)) =~= views_of(owned@).push(name@));
            assert(all_names().take(i + 1) =~= all_names().take(i as int).push(all_names()[i as int]));
        }
        owned.push(name);
        i = i + 1;
    }
    assert(all_names().take(all_names().len() as int) =~= all_names());
    let mut s = String::from_str("Valid check names: ");
    s.append(join(&owned, ", ").as_str());
    s
}

impl ConfigError {
    /// The message of the error.
    pub fn to_string(&self) -> (r: String)
        ensures
            r@ == match self@ {
                ConfigErrorView::InvalidCheckName { invalid_name } => "Invalid check name: "@
                    + invalid_name,
                ConfigErrorView::InvalidTimestampFormat(t) => "Invalid timestamp format: "@ + t,
            },
    {
        match self {
            ConfigError::InvalidCheckName { invalid_name } => {
                let mut s = String::from_str("Invalid check name: ");
                s.append(invalid_name.as_str());
                s
            },
            ConfigError::InvalidTimestampFormat(t) => {
                let mut s = String::from_str("Invalid timestamp format: ");
                s.append(t.as_str());
                s
            },
        }
    }

    /// A short code that tells the kinds of error apart.
    pub fn code(&self) -> (r: &'static str)
        ensures
            r@ == match self@ {
                ConfigErrorView::InvalidCheckName { .. } => "diesel_guard::config::invalid_check"@,
                ConfigErrorView::InvalidTimestampFormat(_) =>
                    "diesel_guard::config::invalid_timestamp"@,
            },
    {
        match self {
            ConfigError::InvalidCheckName { .. } => "diesel_guard::config::invalid_check",
            ConfigError::InvalidTimestampFormat(_) => "diesel_guard::config::invalid_timestamp",
        }
    }

    /// What helps against the error: the valid names, or the valid forms.
    pub fn help(&self) -> (r: String)
        ensures
            r@ == match self@ {
                ConfigErrorView::InvalidCheckName { .. } => "Valid check names: "@ + joined(
                    all_names(),
                    ", "@,
                ),
                ConfigErrorView::InvalidTimestampFormat(_) =>
                    "Expected format: YYYYMMDDHHMMSS, YYYY_MM_DD_HHMMSS, or YYYY-MM-DD-HHMMSS (e.g., 20240101000000, 2024_01_01_000000, or 2024-01-01-000000)"@,
            },
    {
        match self {
            ConfigError::InvalidCheckName { .. } => valid_check_names_help(),
            ConfigError::InvalidTimestampFormat(_) => String::from_str(
                "Expected format: YYYYMMDDHHMMSS, YYYY_MM_DD_HHMMSS, or YYYY-MM-DD-HHMMSS (e.g., 20240101000000, 2024_01_01_000000, or 2024-01-01-000000)",
            ),
        }
    }
}

/// What a run is configured with.
#[derive(Debug)]
pub struct Config {
    /// Migrations up to and including this time stamp are skipped.
    pub start_after: Option<String>,
    /// Whether `down.sql` is checked besides `up.sql`.
    pub check_down: bool,
    /// The names of the rules that are switched off.
    pub disable_checks: Vec<String>,
}

impl Clone for Config {
    fn clone(&self) -> (c: Config)
        ensures
            c.check_down == self.check_down,
            c.start_after is Some <==> self.start_after is Some,
            c.start_after matches Some(t) ==> t@ == self.start_after->Some_0@,
            views_of(c.disable_checks@) == views_of(self.disable_checks@),
    {
        let start_after = match &self.start_after {
            Some(t) => Some(t.clone()),
            None => None,
        };
        let mut disable_checks: Vec<String> = Vec::new();
        let mut i: usize = 0;
        while i < self.disable_checks.len()
            invariant
                i <= self.disable_checks.len(),
                views_of(disable_checks@) == views_of(self.disable_checks@).take(i as int),
            decreases self.disable_checks.len() - i,
        {
            let name = self.disable_checks[i].clone();
            proof {
                let all = views_of(self.disable_checks@);
                assert(name@ == all[i as int]);
                assert(views_of(disable_checks@.push(name)) =~= views_of(disable_checks@).push(name@));
                assert(all.take(i + 1) =~= all.take(i as int).push(all[i as int]));
            }
            disable_checks.push(name);
            i = i + 1;
        }
        assert(views_of(self.disable_checks@).take(self.disable_checks@.len() as int) =~= views_of(
            self.disable_checks@,
        ));
        Config { start_after, check_down: self.check_down, disable_checks }
    }
}

impl Default for Config {
    /// No time stamp, `down.sql` unchecked, every rule on.
    fn default() -> (c: Config)
        ensures
            c.start_after is None,
            !c.check_down,
            c.disable_checks@.len() == 0,
    {
        Config { start_after: None, check_down: false, disable_checks: Vec::new() }
    }
}

/// Whether `timestamp` has one of the three forms of a time stamp.
pub open spec fn valid_timestamp(timestamp: Seq<char>) -> bool {
    pattern_matches(TIMESTAMP_PATTERN@, timestamp)
}

/// Whether `name` is the name of a rule.
pub open spec fn known_check_name(name: Seq<char>) -> bool {
    all_names().contains(name)
}

/// The first of `names` that is no rule's name.
pub open spec fn first_unknown_name(names: Seq<String>) -> Option<Seq<char>>
    decreases names.len(),
{
    if names.len() == 0 {
        None
    } else if !known_check_name(names.first()@) {
        Some(names.first()@)
    } else {
        first_unknown_name(names.drop_first())
    }
}

/// Whether `migration`, a directory name, comes strictly after the time
/// stamp `start_after`. Both are compared by their digits alone, and of the
/// directory name the first fourteen count. A name with fewer digits holds no
/// time stamp and counts as coming after.
pub open spec fn migration_after(migration: Seq<char>, start_after: Seq<char>) -> bool {
    let digits = digits_of(migration);
    if digits.len() >= 14 {
        comes_after(digits.subrange(0, 14), digits_of(start_after))
    } else {
        true
    }
}

impl Config {
    /// Whether the rule named `check_name` is switched on: its name is not
    /// among `disable_checks`.
    pub open spec fn check_enabled(&self, check_name: Seq<char>) -> bool {
        forall|i: int| 0 <= i < self.disable_checks@.len() ==> self.disable_checks@[i]@ != check_name
    }

    /// What is wrong with the configuration, if anything: a `start_after`
    /// that is no time stamp, or else the first disabled name that is no
    /// rule's name.
    pub open spec fn validation_error(&self) -> Option<ConfigErrorView> {
        match self.start_after {
            Some(t) if !valid_timestamp(t@) => Some(ConfigErrorView::InvalidTimestampFormat(t@)),
            _ => match first_unknown_name(self.disable_checks@) {
                Some(name) => Some(ConfigErrorView::InvalidCheckName { invalid_name: name }),
                None => None,
            },
        }
    }

    /// Whether the migration in the directory `migration_dir_name` is to be
    /// checked: always where no `start_after` is set, else where the
    /// directory's time stamp comes strictly after it.
    pub open spec fn migration_checked(&self, migration_dir_name: Seq<char>) -> bool {
        match self.start_after {
            Some(start_after) => migration_after(migration_dir_name, start_after@),
            None => true,
        }
    }

    /// Accepts a time stamp of one of the three forms, and no other text.
    pub fn validate_timestamp(timestamp: &str) -> (r: Result<(), ConfigError>)
        ensures
            match r {
                Ok(_) => valid_timestamp(timestamp@),
                Err(e) => !valid_timestamp(timestamp@) && e@
                    == ConfigErrorView::InvalidTimestampFormat(timestamp@),
            },
    {
        if is_match(TIMESTAMP_PATTERN, timestamp) {
            Ok(())
        } else {
            Err(ConfigError::InvalidTimestampFormat(String::from_str(timestamp)))
        }
    }

    /// Checks the time stamp and the disabled names.
    pub fn validate(&self) -> (r: Result<(), ConfigError>)
        ensures
            match r {
                Ok(_) => self.validation_error() is None,
                Err(e) => self.validation_error() == Some(e@),
            },
    {
        if let Some(timestamp) = &self.start_after {
            if let Err(e) = Self::validate_timestamp(timestamp.as_str()) {
                return Err(e);
            }
        }
        let names = Registry::all_check_names();
        let mut i: usize = 0;
        assert(self.disable_checks@.subrange(0, self.disable_checks@.len() as int)
            =~= self.disable_checks@);
        while i < self.disable_checks.len()
            invariant
                i <= self.disable_checks.len(),
                names@.len() == all_names().len(),
                forall|j: int| 0 <= j < names@.len() ==> names@[j]@ == all_names()[j],
                self.start_after matches Some(t) ==> valid_timestamp(t@),
                first_unknown_name(self.disable_checks@) == first_unknown_name(
                    self.disable_checks@.subrange(i as int, self.disable_checks@.len() as int),
                ),
            decreases self.disable_checks.len() - i,
        {
            let ghost rest = self.disable_checks@.subrange(
                i as int,
                self.disable_checks@.len() as int,
            );
            assert(rest.first() == self.disable_checks@[i as int]);
            assert(rest.drop_first() =~= self.disable_checks@.subrange(
                i + 1,
                self.disable_checks@.len() as int,
            ));
            let name = &self.disable_checks[i];
            let mut known = false;
            let mut k: usize = 0;
            while k < names.len()
                invariant
                    k <= names.len(),
                    names@.len() == all_names().len(),
                    forall|j: int| 0 <= j < names@.len() ==> names@[j]@ == all_names()[j],
                    known ==> all_names().contains(name@),
                    !known ==> forall|j: int| 0 <= j < k ==> all_names()[j] != name@,
                decreases names.len() - k,
            {
                if str_eq(names[k], name.as_str()) {
                    assert(all_names()[k as int] == name@);
                    known = true;
                }
                k = k + 1;
            }
            if !known {
                return Err(ConfigError::InvalidCheckName { invalid_name: name.clone() });
            }
            i = i + 1;
        }
        Ok(())
    }

    /// Whether the rule named `check_name` is switched on.
    pub fn is_check_enabled(&self, check_name: &str) -> (r: bool)
        ensures
            r == self.check_enabled(check_name@),
    {
        let mut i: usize = 0;
        while i < self.disable_checks.len()
            invariant
                i <= self.disable_checks.len(),
                forall|j: int| 0 <= j < i ==> self.disable_checks@[j]@ != check_name@,
            decreases self.disable_checks.len() - i,
        {
            if str_eq(self.disable_checks[i].as_str(), check_name) {
                return false;
            }
            i = i + 1;
        }
        true
    }

    /// The digits of a time stamp, without what separates them.
    pub fn normalize_timestamp(timestamp: &str) -> (r: Vec<char>)
        ensures
            r@ == digits_of(timestamp@),
    {
        ascii_digits(timestamp)
    }

    /// Whether the migration in the directory `migration_dir_name` is to be
    /// checked.
    pub fn should_check_migration(&self, migration_dir_name: &str) -> (r: bool)
        ensures
            r == self.migration_checked(migration_dir_name@),
    {
        if let Some(start_after) = &self.start_after {
            let threshold = Self::normalize_timestamp(start_after.as_str());
            let digits = Self::normalize_timestamp(migration_dir_name);
            if digits.len() >= 14 {
                let mut stamp: Vec<char> = Vec::new();
                let mut i: usize = 0;
                while i < 14
                    invariant
                        i <= 14 <= digits.len(),
                        stamp@ == digits@.subrange(0, i as int),
                    decreases 14 - i,
                {
                    stamp.push(digits[i]);
                    assert(digits@.subrange(0, i + 1) =~= digits@.subrange(0, i as int).push(
                        digits@[i as int],
                    ));
                    i = i + 1;
                }
                return chars_come_after(&stamp, &threshold);
            }
        }
        true
    }
}

} // verus!
