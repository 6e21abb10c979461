//! The configured dial bindings and the rules a configuration must satisfy
//! before the sync loop may start.

use crate::pattern::{spec_regex_match, CompiledPattern};
use vstd::prelude::*;

verus! {

/// Why a configuration was rejected at load time.
#[derive(Clone, Copy, PartialEq, Eq, Structural, Debug)]
pub enum ConfigError {
    /// The binding count does not equal the physical dial count.
    DialCountMismatch,
    /// Two bindings share one name.
    DuplicateName,
    /// More than one catch-all binding was configured.
    MultipleCatchAll,
    /// A selector pattern was rejected by the regex engine.
    InvalidPattern,
}

/// The rule deciding which audio sessions belong to a binding.
pub enum Selector {
    /// Claims any session whose lowercased path the pattern matches,
    /// unanchored.
    Pattern(CompiledPattern),
    /// Claims any session not claimed by an earlier binding.
    CatchAll,
}

/// One logical dial binding: a name, unique across the configuration, and the
/// selector that claims sessions for it.
pub struct ApplicationVolumeDial {
    pub name: String,
    pub selector: Selector,
}

/// Whether the selector claims a session with the given lowercased path.
pub open spec fn spec_selector_matches(sel: Selector, path_lower: Seq<char>) -> bool {
    match sel {
        Selector::Pattern(p) => spec_regex_match(p.pattern_view(), path_lower),
        Selector::CatchAll => true,
    }
}

impl Selector {
    /// Whether this selector claims a session with the given lowercased path.
    pub fn matches(&self, path_lower: &str) -> (r: bool)
        ensures
            r == spec_selector_matches(*self, path_lower@),
    {
        match self {
            Selector::Pattern(p) => p.is_match(path_lower),
            Selector::CatchAll => true,
        }
    }
}

/// Whether every pair of bindings carries distinct names.
pub open spec fn spec_names_unique(dials: Seq<ApplicationVolumeDial>) -> bool {
    forall|i: int, j: int| 0 <= i < j < dials.len() ==> dials[i].name@ != dials[j].name@
}

/// How many catch-all bindings the list holds.
pub open spec fn spec_catch_all_count(dials: Seq<ApplicationVolumeDial>) -> nat
    decreases dials.len(),
{
    if dials.len() == 0 {
        0
    } else {
        spec_catch_all_count(dials.drop_last()) + if dials.last().selector is CatchAll {
            1nat
        } else {
            0nat
        }
    }
}

/// A configuration fit to run: one binding per physical dial (the 1:1 ordinal
/// correspondence the whole system rests on), unique names, and at most one
/// catch-all binding.
pub open spec fn spec_config_valid(dials: Seq<ApplicationVolumeDial>, physical_dials: int) -> bool {
    &&& dials.len() == physical_dials
    &&& spec_names_unique(dials)
    &&& spec_catch_all_count(dials) <= 1
}

/// The top-level configuration, loaded once per run and immutable afterwards.
pub struct Config {
    /// The logical dials, in binding order; sessions are matched against
    /// these in order, and position `i` is fed by physical dial `i`.
    pub application_volume_dials: Vec<ApplicationVolumeDial>,
    pub serial_port_path: String,
    pub serial_port_baud: u32,
}

impl Config {
    /// Validates and assembles a configuration: the binding count must equal
    /// the physical dial count, names must be unique, and at most one
    /// catch-all binding may exist. Exactly the first violated rule, in that
    /// order, is reported.
    pub fn new(
        application_volume_dials: Vec<ApplicationVolumeDial>,
        serial_port_path: String,
        serial_port_baud: u32,
        physical_dials: usize,
    ) -> (r: Result<Config, ConfigError>)
        ensures
            match r {
                Ok(c) => {
                    &&& spec_config_valid(c.application_volume_dials@, physical_dials as int)
                    &&& c.application_volume_dials == application_volume_dials
                    &&& c.serial_port_path == serial_port_path
                    &&& c.serial_port_baud == serial_port_baud
                },
                Err(e) => {
                    ||| (e is DialCountMismatch && application_volume_dials@.len()
                        != physical_dials)
                    ||| (e is DuplicateName && application_volume_dials@.len() == physical_dials
                        && !spec_names_unique(application_volume_dials@))
                    ||| (e is MultipleCatchAll && application_volume_dials@.len()
                        == physical_dials && spec_names_unique(application_volume_dials@)
                        && spec_catch_all_count(application_volume_dials@) > 1)
                },
            },
    {
        let n = application_volume_dials.len();
        if n != physical_dials {
            return Err(ConfigError::DialCountMismatch);
        }
        for i in 0..n
            invariant
                n == application_volume_dials@.len(),
                n == physical_dials,
                forall|p: int, q: int|
                    0 <= p < i && p < q < n ==> application_volume_dials@[p].name@
                        != application_volume_dials@[q].name@,
        {
            for j in (i + 1)..n
                invariant
                    n == application_volume_dials@.len(),
                    n == physical_dials,
                    i < n,
                    forall|p: int, q: int|
                        0 <= p < i && p < q < n ==> application_volume_dials@[p].name@
                            != application_volume_dials@[q].name@,
                    forall|q: int|
                        i < q < j ==> application_volume_dials@[i as int].name@
                            != application_volume_dials@[q].name@,
            {
                if application_volume_dials[i].name == application_volume_dials[j].name {
                    proof {
                        assert(application_volume_dials@[i as int].name@
                            == application_volume_dials@[j as int].name@);
                        assert(!spec_names_unique(application_volume_dials@));
                    }
                    return Err(ConfigError::DuplicateName);
                }
            }
        }
        let mut catch_alls: usize = 0;
        for i in 0..n
            invariant
                n == application_volume_dials@.len(),
                catch_alls <= i,
                catch_alls == spec_catch_all_count(application_volume_dials@.take(i as int)),
        {
            let is_catch_all = match &application_volume_dials[i].selector {
                Selector::CatchAll => true,
                Selector::Pattern(_) => false,
            };
            proof {
                assert(application_volume_dials@.take(i + 1).drop_last() =~= application_volume_dials@.take(
                    i as int,
                ));
                assert(application_volume_dials@.take(i + 1).last()
                    == application_volume_dials@[i as int]);
            }
            if is_catch_all {
                catch_alls = catch_alls + 1;
            }
        }
        proof {
            assert(application_volume_dials@.take(n as int) =~= application_volume_dials@);
        }
        if catch_alls > 1 {
            return Err(ConfigError::MultipleCatchAll);
        }
        Ok(Config { application_volume_dials, serial_port_path, serial_port_baud })
    }
}

/// The serial port used when the configuration names none.
pub fn default_serial_path() -> (r: String)
    ensures
        r@ == "COM0"@,
{
    "COM0".to_owned()
}

/// The baud rate used when the configuration names none.
pub fn default_serial_baud() -> (r: u32)
    ensures
        r == 56000u32,
{
    56_000
}

} // verus!
