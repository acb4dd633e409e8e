//! Repository options: retention (prune) settings, password policies and
//! their parent/child inheritance merge.

use vstd::prelude::*;
use vstd::string::*;

use crate::cmd::CmdOutput;

verus! {

/// Retention counts per period.  An absent field means "inherit from the
/// parent scope", and at prune time an absent field counts as zero.
#[derive(Clone, Copy, Debug)]
pub struct PruneSettings {
    pub yearly: Option<u32>,
    pub monthly: Option<u32>,
    pub weekly: Option<u32>,
    pub daily: Option<u32>,
    pub hourly: Option<u32>,
}

/// Field-wise overlay: a present child field wins, an absent one falls
/// back to the parent.
pub open spec fn spec_or<T>(child: Option<T>, parent: Option<T>) -> Option<T> {
    if child is Some {
        child
    } else {
        parent
    }
}

impl PruneSettings {
    pub open spec fn spec_default() -> PruneSettings {
        PruneSettings { yearly: None, monthly: None, weekly: None, daily: None, hourly: None }
    }

    /// Merge of a child (`self`) over its parent: each field of the child
    /// wins if present, else the parent's value is used.
    pub open spec fn spec_merge(self, parent: PruneSettings) -> PruneSettings {
        PruneSettings {
            yearly: spec_or(self.yearly, parent.yearly),
            monthly: spec_or(self.monthly, parent.monthly),
            weekly: spec_or(self.weekly, parent.weekly),
            daily: spec_or(self.daily, parent.daily),
            hourly: spec_or(self.hourly, parent.hourly),
        }
    }

    pub fn merge(&self, parent: &PruneSettings) -> (r: PruneSettings)
        ensures
            r == self.spec_merge(*parent),
    {
        PruneSettings {
            yearly: if self.yearly.is_some() { self.yearly } else { parent.yearly },
            monthly: if self.monthly.is_some() { self.monthly } else { parent.monthly },
            weekly: if self.weekly.is_some() { self.weekly } else { parent.weekly },
            daily: if self.daily.is_some() { self.daily } else { parent.daily },
            hourly: if self.hourly.is_some() { self.hourly } else { parent.hourly },
        }
    }

    pub fn new_empty() -> (r: PruneSettings)
        ensures
            r == PruneSettings::spec_default(),
    {
        PruneSettings { yearly: None, monthly: None, weekly: None, daily: None, hourly: None }
    }
}

/// A plain stored secret.
#[derive(Debug)]
pub struct PlainPassword {
    pub value: String,
}

/// A `(system, user)` pair for a lookup in the system secret store.
#[derive(Debug)]
pub struct PasswordStore {
    pub system: String,
    pub user: String,
}

/// How a repository's passphrase is obtained.
#[derive(Debug)]
pub enum PasswordOptions {
    Plain(PlainPassword),
    PasswordStore(PasswordStore),
}

impl PlainPassword {
    pub fn get_password(&self) -> (r: Option<String>)
        ensures
            r == Some(self.value),
    {
        Some(self.value.clone())
    }

    pub fn duplicate(&self) -> (r: PlainPassword)
        ensures
            r == *self,
    {
        PlainPassword { value: self.value.clone() }
    }
}

impl PasswordStore {
    /// The secret-store lookup command for this `(system, user)` pair.
    pub fn lookup_cmd(&self) -> (r: String)
        ensures
            r@ == "secret-tool lookup "@ + self.system@ + " "@ + self.user@,
    {
        String::from_str("secret-tool lookup ")
            .concat(self.system.as_str())
            .concat(" ")
            .concat(self.user.as_str())
    }

    /// The looked-up secret: the lookup command's standard output on
    /// success, nothing on failure.
    pub fn get_password(&self, output: &CmdOutput) -> (r: Option<String>)
        ensures
            r == if output.success {
                Some(output.stdout)
            } else {
                None::<String>
            },
    {
        if output.success {
            Some(output.stdout.clone())
        } else {
            None
        }
    }

    pub fn duplicate(&self) -> (r: PasswordStore)
        ensures
            r == *self,
    {
        PasswordStore { system: self.system.clone(), user: self.user.clone() }
    }
}

impl PasswordOptions {
    /// The resolved secret, given the output of the secret-store lookup
    /// where one was required: a plain policy yields its stored value, a
    /// store policy yields the lookup's standard output on success and
    /// nothing otherwise.
    pub open spec fn spec_resolved(self, lookup: Option<CmdOutput>) -> Option<String> {
        match self {
            PasswordOptions::Plain(p) => Some(p.value),
            PasswordOptions::PasswordStore(_) => match lookup {
                Some(o) => if o.success {
                    Some(o.stdout)
                } else {
                    None
                },
                None => None,
            },
        }
    }

    /// The lookup command this policy needs run, if any.
    pub fn lookup_cmd(&self) -> (r: Option<String>)
        ensures
            match self {
                PasswordOptions::Plain(_) => r is None,
                PasswordOptions::PasswordStore(s) => r matches Some(c) && c@ == "secret-tool lookup "@
                    + s.system@ + " "@ + s.user@,
            },
    {
        match self {
            PasswordOptions::Plain(_) => None,
            PasswordOptions::PasswordStore(s) => Some(s.lookup_cmd()),
        }
    }

    /// Resolve this policy.  `lookup` is the result of running the
    /// command from [`Self::lookup_cmd`], where one was requested.
    pub fn get_password(&self, lookup: &Option<CmdOutput>) -> (r: Option<String>)
        ensures
            r == self.spec_resolved(*lookup),
    {
        match self {
            PasswordOptions::Plain(p) => p.get_password(),
            PasswordOptions::PasswordStore(s) => match lookup {
                Some(o) => s.get_password(o),
                None => None,
            },
        }
    }

    pub fn duplicate(&self) -> (r: PasswordOptions)
        ensures
            r == *self,
    {
        match self {
            PasswordOptions::Plain(p) => PasswordOptions::Plain(p.duplicate()),
            PasswordOptions::PasswordStore(s) => PasswordOptions::PasswordStore(s.duplicate()),
        }
    }
}

/// Overlay options for one repository, or the global defaults.  Every
/// field may be absent, meaning "inherit from the parent scope".
#[derive(Debug)]
pub struct RepositoryOptions {
    pub prune: Option<PruneSettings>,
    pub password: Option<PasswordOptions>,
    pub cmdline: Option<String>,
}

impl RepositoryOptions {
    pub open spec fn spec_default() -> RepositoryOptions {
        RepositoryOptions { prune: None, password: None, cmdline: None }
    }

    /// Field-wise overlay of a child (`self`) over its parent; the prune
    /// settings merge field-wise one level deeper.
    pub open spec fn spec_merge(self, parent: RepositoryOptions) -> RepositoryOptions {
        RepositoryOptions {
            prune: match self.prune {
                Some(p) => match parent.prune {
                    Some(pp) => Some(p.spec_merge(pp)),
                    None => Some(p),
                },
                None => parent.prune,
            },
            password: spec_or(self.password, parent.password),
            cmdline: spec_or(self.cmdline, parent.cmdline),
        }
    }

    pub fn merge(&self, parent: &RepositoryOptions) -> (r: RepositoryOptions)
        ensures
            r == self.spec_merge(*parent),
    {
        let prune = match &self.prune {
            Some(p) => match &parent.prune {
                Some(pp) => Some(p.merge(pp)),
                None => Some(*p),
            },
            None => parent.prune,
        };
        let password = match &self.password {
            Some(p) => Some(p.duplicate()),
            None => match &parent.password {
                Some(p) => Some(p.duplicate()),
                None => None,
            },
        };
        let cmdline = match &self.cmdline {
            Some(c) => Some(c.clone()),
            None => match &parent.cmdline {
                Some(c) => Some(c.clone()),
                None => None,
            },
        };
        RepositoryOptions { prune, password, cmdline }
    }

    pub fn new_empty() -> (r: RepositoryOptions)
        ensures
            r == RepositoryOptions::spec_default(),
    {
        RepositoryOptions { prune: None, password: None, cmdline: None }
    }
}

/// Merging an all-absent child yields the parent unchanged, and merging
/// any child with an all-absent parent yields the child unchanged.
pub proof fn lemma_prune_merge_identity(p: PruneSettings)
    ensures
        PruneSettings::spec_default().spec_merge(p) == p,
        p.spec_merge(PruneSettings::spec_default()) == p,
{
}

/// A fully-specified child is unchanged by merging with any parent.
pub proof fn lemma_prune_merge_full_child(child: PruneSettings, parent: PruneSettings)
    requires
        child.yearly is Some,
        child.monthly is Some,
        child.weekly is Some,
        child.daily is Some,
        child.hourly is Some,
    ensures
        child.spec_merge(parent) == child,
{
}

/// The merge is associative: overriding in two steps equals overriding
/// in one, whichever way the three levels are grouped.
pub proof fn lemma_prune_merge_assoc(a: PruneSettings, b: PruneSettings, c: PruneSettings)
    ensures
        a.spec_merge(b).spec_merge(c) == a.spec_merge(b.spec_merge(c)),
{
}

/// Merging an all-absent child over a parent yields the parent, and
/// merging a child over an all-absent parent yields the child, nested
/// prune fields included.
pub proof fn lemma_options_merge_identity(p: RepositoryOptions)
    ensures
        RepositoryOptions::spec_default().spec_merge(p) == p,
        p.spec_merge(RepositoryOptions::spec_default()) == p,
{
}

/// A fully-specified child (every field present, every nested prune
/// field present) is unchanged by merging with any parent.
pub proof fn lemma_options_merge_full_child(child: RepositoryOptions, parent: RepositoryOptions)
    requires
        child.prune matches Some(p) && p.yearly is Some && p.monthly is Some && p.weekly is Some
            && p.daily is Some && p.hourly is Some,
        child.password is Some,
        child.cmdline is Some,
    ensures
        child.spec_merge(parent) == child,
{
}

/// Option inheritance is associative through two levels: overriding `b`
/// with `a` and then `c` with the result equals overriding the merge of
/// `b` over `c` with `a`.
pub proof fn lemma_options_merge_assoc(
    a: RepositoryOptions,
    b: RepositoryOptions,
    c: RepositoryOptions,
)
    ensures
        a.spec_merge(b).spec_merge(c) == a.spec_merge(b.spec_merge(c)),
{
}

} // verus!
