//! The configuration: the debug switch and the four movement keys, as read
//! from an already decoded configuration document.
use vstd::prelude::*;
use crate::text::{ascii_upper, is_ascii_alnum, is_ascii_alphanumeric, is_white_space, is_whitespace, to_ascii_upper, trim, trim_end, trim_start};

verus! {

/// The four movement keys, stored in upper case.
#[derive(Clone, Copy, Debug, PartialEq, Eq, Structural)]
pub struct MovementKeys {
    pub forward: char,
    pub backward: char,
    pub left: char,
    pub right: char,
}

/// `W`, `S`, `A`, `D`.
pub open spec fn default_movement_keys() -> MovementKeys {
    MovementKeys { forward: 'W', backward: 'S', left: 'A', right: 'D' }
}

impl Default for MovementKeys {
    fn default() -> (r: Self)
        ensures
            r == default_movement_keys(),
    {
        MovementKeys { forward: 'W', backward: 'S', left: 'A', right: 'D' }
    }
}

/// The four keys are pairwise different.
pub open spec fn all_distinct(keys: MovementKeys) -> bool {
    &&& keys.forward != keys.backward
    &&& keys.forward != keys.left
    &&& keys.forward != keys.right
    &&& keys.backward != keys.left
    &&& keys.backward != keys.right
    &&& keys.left != keys.right
}

/// The set of the four keys.
pub open spec fn key_set(keys: MovementKeys) -> Set<char> {
    set![keys.forward, keys.backward, keys.left, keys.right]
}

impl MovementKeys {
    /// `key`, in either case, is one of the four keys.
    pub open spec fn has_key(self, key: char) -> bool {
        let k = ascii_upper(key);
        k == self.forward || k == self.backward || k == self.left || k == self.right
    }

    /// The keys of the vertical axis: forward, then backward.
    pub fn vertical_pair(self) -> (r: [char; 2])
        ensures
            r == [self.forward, self.backward],
    {
        [self.forward, self.backward]
    }

    /// The keys of the horizontal axis: left, then right.
    pub fn horizontal_pair(self) -> (r: [char; 2])
        ensures
            r == [self.left, self.right],
    {
        [self.left, self.right]
    }

    /// Whether `key`, taken in upper case, is one of the four keys.
    pub fn contains(self, key: char) -> (r: bool)
        ensures
            r == self.has_key(key),
    {
        let key = to_ascii_upper(key);
        key == self.forward || key == self.backward || key == self.left || key == self.right
    }

    /// The keys that a `[movement]` table gives: each key that is present must
    /// be one ASCII letter or digit once surrounding white space is trimmed,
    /// and is taken in upper case; a missing key keeps its default; a missing
    /// table gives the defaults. Fails when a key is malformed or the four
    /// keys are not all different.
    pub fn from_raw(raw: Option<RawMovementConfig>) -> (r: Result<Self, ConfigKeyError>)
        ensures
            r is Ok <==> keys_from(raw) is Some,
            r matches Ok(k) ==> keys_from(raw) == Some(k),
    {
        let defaults = MovementKeys::default();
        let raw = match raw {
            Some(raw) => raw,
            None => {
                return Ok(defaults);
            },
        };
        let forward = parse_key(as_str_option(&raw.forward), defaults.forward)?;
        let backward = parse_key(as_str_option(&raw.backward), defaults.backward)?;
        let left = parse_key(as_str_option(&raw.left), defaults.left)?;
        let right = parse_key(as_str_option(&raw.right), defaults.right)?;
        let keys = MovementKeys { forward, backward, left, right };
        if unique_key_count(keys) != 4 {
            return Err(ConfigKeyError);
        }
        Ok(keys)
    }
}

/// The error of a malformed or repeated movement key.
#[derive(Clone, Copy, Debug, PartialEq, Eq, Structural)]
pub struct ConfigKeyError;

impl ConfigKeyError {
    /// The message shown for this error.
    pub fn message(&self) -> (r: &'static str)
        ensures
            r@ == "movement keys must be unique single ASCII alphanumeric characters"@,
    {
        "movement keys must be unique single ASCII alphanumeric characters"
    }
}

/// The `[movement]` table of a configuration document, each key as written.
#[derive(Clone, Debug, PartialEq, Eq)]
pub struct RawMovementConfig {
    pub forward: Option<String>,
    pub backward: Option<String>,
    pub left: Option<String>,
    pub right: Option<String>,
}

/// A configuration document: an optional `debug` switch and an optional
/// `[movement]` table.
#[derive(Clone, Debug, PartialEq, Eq)]
pub struct RawConfig {
    pub debug: Option<bool>,
    pub movement: Option<RawMovementConfig>,
}

/// The configuration the program runs with.
#[derive(Clone, Copy, Debug, PartialEq, Eq, Structural)]
pub struct AppConfig {
    pub debug: bool,
    pub movement: MovementKeys,
}

/// Debug off, default movement keys.
pub open spec fn default_app_config() -> AppConfig {
    AppConfig { debug: false, movement: default_movement_keys() }
}

impl Default for AppConfig {
    fn default() -> (r: Self)
        ensures
            r == default_app_config(),
    {
        AppConfig { debug: false, movement: MovementKeys::default() }
    }
}

/// A configuration together with the warning to show about how it was loaded.
#[derive(Clone, Debug, PartialEq, Eq)]
pub struct LoadedAppConfig {
    pub config: AppConfig,
    pub warning: Option<String>,
}

/// The text of an optional string.
pub open spec fn text_of(s: Option<String>) -> Option<Seq<char>> {
    match s {
        Some(s) => Some(s@),
        None => None,
    }
}

/// The key that a configured value gives: no value gives `default`; a value
/// gives its single ASCII letter or digit (in upper case) once trimmed of white
/// space, and nothing (an error) otherwise.
pub open spec fn parsed_key(value: Option<Seq<char>>, default: char) -> Option<char> {
    match value {
        None => Some(default),
        Some(v) => {
            let t = trim(v);
            if t.len() == 1 && is_ascii_alnum(t[0]) {
                Some(ascii_upper(t[0]))
            } else {
                None
            }
        },
    }
}

/// The movement keys that a `[movement]` table gives, if it is valid.
pub open spec fn keys_from(raw: Option<RawMovementConfig>) -> Option<MovementKeys> {
    match raw {
        None => Some(default_movement_keys()),
        Some(r) => {
            let d = default_movement_keys();
            let f = parsed_key(text_of(r.forward), d.forward);
            let b = parsed_key(text_of(r.backward), d.backward);
            let l = parsed_key(text_of(r.left), d.left);
            let rt = parsed_key(text_of(r.right), d.right);
            if f is Some && b is Some && l is Some && rt is Some {
                let keys = MovementKeys {
                    forward: f.unwrap(),
                    backward: b.unwrap(),
                    left: l.unwrap(),
                    right: rt.unwrap(),
                };
                if all_distinct(keys) {
                    Some(keys)
                } else {
                    None
                }
            } else {
                None
            }
        },
    }
}

/// The configuration that a document gives, if it is valid: `debug`
/// defaults to off.
pub open spec fn config_from(raw: RawConfig) -> Option<AppConfig> {
    match keys_from(raw.movement) {
        Some(keys) => Some(
            AppConfig {
                debug: match raw.debug {
                    Some(d) => d,
                    None => false,
                },
                movement: keys,
            },
        ),
        None => None,
    }
}

fn as_str_option(s: &Option<String>) -> (r: Option<&str>)
    ensures
        match r {
            Some(v) => text_of(*s) == Some(v@),
            None => text_of(*s) is None,
        },
{
    match s {
        Some(s) => Some(s.as_str()),
        None => None,
    }
}

proof fn lemma_trim_start_step(s: Seq<char>, i: int)
    requires
        0 <= i < s.len(),
        is_white_space(s[i]),
    ensures
        trim_start(s.subrange(i, s.len() as int)) == trim_start(s.subrange(i + 1, s.len() as int)),
{
    let sub = s.subrange(i, s.len() as int);
    assert(sub.drop_first() =~= s.subrange(i + 1, s.len() as int));
}

proof fn lemma_trim_end_step(s: Seq<char>, i: int, j: int)
    requires
        0 <= i < j <= s.len(),
        is_white_space(s[j - 1]),
    ensures
        trim_end(s.subrange(i, j)) == trim_end(s.subrange(i, j - 1)),
{
    let sub = s.subrange(i, j);
    assert(sub.drop_last() =~= s.subrange(i, j - 1));
}

/// The key that a configured value gives (see `parsed_key`).
pub fn parse_key(value: Option<&str>, default: char) -> (r: Result<char, ConfigKeyError>)
    ensures
        r is Ok <==> parsed_key(
            match value {
                Some(v) => Some(v@),
                None => None,
            },
            default,
        ) is Some,
        r matches Ok(c) ==> parsed_key(
            match value {
                Some(v) => Some(v@),
                None => None,
            },
            default,
        ) == Some(c),
{
    let value = match value {
        Some(v) => v,
        None => {
            return Ok(default);
        },
    };
    let ghost s = value@;
    let n = value.unicode_len();
    let mut start: usize = 0;
    assert(s.subrange(0, n as int) =~= s);
    while start < n && is_whitespace(value.get_char(start))
        invariant
            n == s.len(),
            s == value@,
            0 <= start <= n,
            trim_start(s) == trim_start(s.subrange(start as int, n as int)),
        decreases n - start,
    {
        proof {
            lemma_trim_start_step(s, start as int);
        }
        start = start + 1;
    }
    proof {
        let sub = s.subrange(start as int, n as int);
        if start < n {
            assert(sub[0] == s[start as int]);
        }
        assert(trim_start(s) == sub);
    }
    let mut end: usize = n;
    while end > start && is_whitespace(value.get_char(end - 1))
        invariant
            n == s.len(),
            s == value@,
            0 <= start <= end <= n,
            trim(s) == trim_end(s.subrange(start as int, end as int)),
        decreases end - start,
    {
        proof {
            lemma_trim_end_step(s, start as int, end as int);
        }
        end = end - 1;
    }
    proof {
        let sub = s.subrange(start as int, end as int);
        if end > start {
            assert(sub.last() == s[end - 1]);
        }
        assert(trim(s) == sub);
    }
    if end - start != 1 {
        return Err(ConfigKeyError);
    }
    let key = value.get_char(start);
    if !is_ascii_alphanumeric(key) {
        return Err(ConfigKeyError);
    }
    Ok(to_ascii_upper(key))
}

/// The number of different keys among the four.
pub fn unique_key_count(keys: MovementKeys) -> (r: usize)
    ensures
        r == key_set(keys).len(),
        r == 4 <==> all_distinct(keys),
{
    let f = keys.forward;
    let b = keys.backward;
    let l = keys.left;
    let rt = keys.right;
    let mut count: usize = 1;
    if b != f {
        count = count + 1;
    }
    if l != f && l != b {
        count = count + 1;
    }
    if rt != f && rt != b && rt != l {
        count = count + 1;
    }
    proof {
        let s0 = Set::<char>::empty();
        let s1 = s0.insert(f);
        let s2 = s1.insert(b);
        let s3 = s2.insert(l);
        let s4 = s3.insert(rt);
        assert(key_set(keys) == s4);
        assert(s1.len() == 1);
        assert(s2.len() == if b != f { 2int } else { 1int });
        assert(s3.contains(rt) <==> (rt == f || rt == b || rt == l));
        assert(s2.contains(l) <==> (l == f || l == b));
    }
    count
}

/// The configuration that a decoded document gives (see `config_from`);
/// fails when the movement keys are invalid.
pub fn config_from_raw(raw: RawConfig) -> (r: Result<AppConfig, ConfigKeyError>)
    ensures
        r is Ok <==> config_from(raw) is Some,
        r matches Ok(c) ==> config_from(raw) == Some(c),
{
    let debug = match raw.debug {
        Some(d) => d,
        None => false,
    };
    let movement = MovementKeys::from_raw(raw.movement)?;
    Ok(AppConfig { debug, movement })
}

/// The loaded configuration for each outcome of reading the file at `path_label`:
/// an unreadable file gives the defaults silently, a valid one its
/// configuration, and an invalid one the defaults with a warning that names
/// the file and the error.
pub open spec fn loaded_from(path_label: Seq<char>, outcome: Option<Result<AppConfig, Seq<char>>>) -> (
    AppConfig,
    Option<Seq<char>>,
) {
    match outcome {
        None => (default_app_config(), None),
        Some(Ok(c)) => (c, None),
        Some(Err(e)) => (default_app_config(), Some("Ignoring "@ + path_label + ": "@ + e)),
    }
}

impl LoadedAppConfig {
    /// The configuration to run with and the warning to show, given what
    /// reading and decoding the file at `path_label` gave: `None` when the file
    /// could not be read, else the configuration or the error message.
    pub fn from_outcome(path_label: &str, outcome: Option<Result<AppConfig, String>>) -> (r:
        LoadedAppConfig)
        ensures
            (r.config, text_of(r.warning)) == loaded_from(
                path_label@,
                match outcome {
                    None => None,
                    Some(Ok(c)) => Some(Ok(c)),
                    Some(Err(e)) => Some(Err(e@)),
                },
            ),
    {
        match outcome {
            None => LoadedAppConfig { config: AppConfig::default(), warning: None },
            Some(Ok(config)) => LoadedAppConfig { config, warning: None },
            Some(Err(error)) => {
                let mut warning = String::from_str("Ignoring ");
                warning.append(path_label);
                warning.append(": ");
                warning.append(error.as_str());
                LoadedAppConfig { config: AppConfig::default(), warning: Some(warning) }
            },
        }
    }
}

} // verus!
