use vstd::prelude::*;
use vstd::string::*;

verus! {

/// One address of a cluster member.
#[derive(Clone, Debug)]
pub struct Endpoint {
    pub host: String,
    pub port: u16,
}

/// How to reach one cluster: addresses, optional credentials, timeouts and
/// a flag that forbids writes from this client.
#[derive(Clone, Debug)]
pub struct Profile {
    pub name: String,
    pub endpoints: Vec<Endpoint>,
    pub user: Option<(String, String)>,
    pub timeout_ms: Option<u64>,
    pub connect_timeout_ms: Option<u64>,
    pub locked: Option<bool>,
}

#[derive(Clone, Copy, Debug, PartialEq, Eq, Structural)]
pub enum ColorTheme {
    Light,
    Dark,
    System,
}

/// The user's settings: the known profiles and which one is active.
#[derive(Clone, Debug)]
pub struct AppConfig {
    pub profiles: Vec<Profile>,
    pub current_profile: Option<String>,
    pub color_theme: ColorTheme,
}

/// `i` is the first position in `profiles` whose name is `name`.
pub open spec fn is_first_named(profiles: Seq<Profile>, name: Seq<char>, i: int) -> bool {
    &&& 0 <= i < profiles.len()
    &&& profiles[i].name@ == name
    &&& forall|j: int| 0 <= j < i ==> profiles[j].name@ != name
}

/// Some profile in `profiles` is called `name`.
pub open spec fn has_named(profiles: Seq<Profile>, name: Seq<char>) -> bool {
    exists|i: int| 0 <= i < profiles.len() && profiles[i].name@ == name
}

impl Profile {
    /// Writes are forbidden for this profile.
    pub open spec fn is_locked(&self) -> bool {
        self.locked == Some(true)
    }
}

impl AppConfig {
    /// The active-profile name, as characters.
    pub open spec fn active_name(&self) -> Option<Seq<char>> {
        match self.current_profile {
            Some(n) => Some(n@),
            None => None,
        }
    }

    /// The active-profile name is set and names a known profile.
    pub open spec fn resolves(&self) -> bool {
        &&& self.current_profile is Some
        &&& has_named(self.profiles@, self.current_profile->0@)
    }

    /// Position of the active profile: the first profile carrying the active name.
    pub open spec fn current_index(&self) -> int {
        choose|i: int| is_first_named(self.profiles@, self.current_profile->0@, i)
    }

    /// The active profile, when the active name resolves.
    pub open spec fn current(&self) -> Profile {
        self.profiles@[self.current_index()]
    }

    /// The active profile resolves and forbids writes.
    pub open spec fn current_locked(&self) -> bool {
        self.resolves() && self.current().is_locked()
    }

    /// Returns the first profile named by the active-profile name, if any.
    pub fn get_current_profile(&self) -> (r: Option<&Profile>)
        ensures
            r is Some <==> self.resolves(),
            r is Some ==> is_first_named(self.profiles@, self.current_profile->0@, self.current_index()),
            r is Some ==> *r->0 == self.current(),
    {
        match &self.current_profile {
            None => None,
            Some(name) => {
                let mut i: usize = 0;
                while i < self.profiles.len()
                    invariant
                        0 <= i <= self.profiles@.len(),
                        self.current_profile == Some(*name),
                        forall|j: int| 0 <= j < i ==> self.profiles@[j].name@ != name@,
                    decreases self.profiles@.len() - i,
                {
                    if self.profiles[i].name == *name {
                        proof {
                            let ps = self.profiles@;
                            assert(is_first_named(ps, name@, i as int));
                            let k = self.current_index();
                            if k != i as int {
                                assert(is_first_named(ps, name@, k));
                                if k < i as int {
                                    assert(ps[k].name@ != name@);
                                } else {
                                    assert(ps[i as int].name@ != name@);
                                }
                            }
                        }
                        return Some(&self.profiles[i]);
                    }
                    i += 1;
                }
                None
            },
        }
    }

    /// Used before commands that may change data on the server: fails when no
    /// profile is active or when the active profile is locked.
    pub fn ensure_current_profile_unlocked(&self) -> (r: Result<(), String>)
        ensures
            r is Ok <==> self.resolves() && !self.current().is_locked(),
            !self.resolves() ==> r is Err && r->Err_0@ == "No current profile set"@,
            self.current_locked() ==> r is Err && r->Err_0@ == "Current profile is locked"@,
    {
        match self.get_current_profile() {
            None => Err(String::from_str("No current profile set")),
            Some(p) => {
                if let Some(true) = p.locked {
                    Err(String::from_str("Current profile is locked"))
                } else {
                    Ok(())
                }
            },
        }
    }
}

impl Default for AppConfig {
    fn default() -> (r: AppConfig)
        ensures
            r.profiles@.len() == 0,
            r.current_profile is None,
            r.color_theme == ColorTheme::System,
    {
        AppConfig { profiles: Vec::new(), current_profile: None, color_theme: ColorTheme::System }
    }
}

} // verus!
