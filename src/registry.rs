//! A cache of browser profiles: each (browser version, system) profile is
//! built the first time it is asked for, and kept unchanged afterwards.
use vstd::prelude::*;
use crate::profile::{Impersonate, ImpersonateOS, BrowserSettings, ProfileModel, profile_spec, build_browser_settings};
use crate::selection::OS_COUNT;

verus! {

/// The number of cached profiles, one for each version and system.
pub const PROFILE_SLOTS: usize = 50;

/// The position of a browser version among the cache keys.
pub open spec fn imp_index(imp: Impersonate) -> int {
    match imp {
        Impersonate::ChromeV144 => 0,
        Impersonate::ChromeV145 => 1,
        Impersonate::EdgeV144 => 2,
        Impersonate::EdgeV145 => 3,
        Impersonate::OperaV126 => 4,
        Impersonate::OperaV127 => 5,
        Impersonate::SafariV18_5 => 6,
        Impersonate::SafariV26 => 7,
        Impersonate::FirefoxV140 => 8,
        Impersonate::FirefoxV146 => 9,
    }
}

/// The position of a system among the cache keys.
pub open spec fn os_index(os: ImpersonateOS) -> int {
    match os {
        ImpersonateOS::Windows => 0,
        ImpersonateOS::MacOS => 1,
        ImpersonateOS::Linux => 2,
        ImpersonateOS::Android => 3,
        ImpersonateOS::IOS => 4,
    }
}

/// The slot of a (version, system) key.
pub open spec fn slot(imp: Impersonate, os: ImpersonateOS) -> int {
    imp_index(imp) * OS_COUNT + os_index(os)
}

fn slot_of(imp: Impersonate, os: ImpersonateOS) -> (r: usize)
    ensures
        r == slot(imp, os),
        r < PROFILE_SLOTS,
{
    let i: usize = match imp {
        Impersonate::ChromeV144 => 0,
        Impersonate::ChromeV145 => 1,
        Impersonate::EdgeV144 => 2,
        Impersonate::EdgeV145 => 3,
        Impersonate::OperaV126 => 4,
        Impersonate::OperaV127 => 5,
        Impersonate::SafariV18_5 => 6,
        Impersonate::SafariV26 => 7,
        Impersonate::FirefoxV140 => 8,
        Impersonate::FirefoxV146 => 9,
    };
    let o: usize = match os {
        ImpersonateOS::Windows => 0,
        ImpersonateOS::MacOS => 1,
        ImpersonateOS::Linux => 2,
        ImpersonateOS::Android => 3,
        ImpersonateOS::IOS => 4,
    };
    i * OS_COUNT + o
}

proof fn lemma_slot_unique(a: Impersonate, b: ImpersonateOS, c: Impersonate, d: ImpersonateOS)
    ensures
        0 <= slot(a, b) < PROFILE_SLOTS,
        slot(a, b) == slot(c, d) ==> a == c && b == d,
{
}

/// Built profiles, one slot for each (version, system) key.
#[derive(Debug)]
pub struct ProfileCache {
    entries: Vec<Option<BrowserSettings>>,
}

impl ProfileCache {
    /// Every slot holds nothing or the profile of its key.
    pub closed spec fn wf(&self) -> bool {
        &&& self.entries@.len() == PROFILE_SLOTS
        &&& forall|imp: Impersonate, os: ImpersonateOS| #[trigger] self.entries@[slot(imp, os)] matches Some(p)
            ==> profile_spec(p@, imp, os)
    }

    /// The profile cached for a key, if it was built.
    pub closed spec fn cached(&self, imp: Impersonate, os: ImpersonateOS) -> Option<ProfileModel> {
        match self.entries@[slot(imp, os)] {
            Some(p) => Some(p@),
            None => None,
        }
    }

    /// An empty cache.
    pub fn new() -> (r: ProfileCache)
        ensures
            r.wf(),
            forall|imp: Impersonate, os: ImpersonateOS| #[trigger] r.cached(imp, os) is None,
    {
        let mut entries: Vec<Option<BrowserSettings>> = Vec::new();
        let mut i: usize = 0;
        while i < PROFILE_SLOTS
            invariant
                i <= PROFILE_SLOTS,
                entries@.len() == i,
                forall|j: int| 0 <= j < i ==> entries@[j] is None,
            decreases PROFILE_SLOTS - i,
        {
            entries.push(None);
            i += 1;
        }
        proof {
            assert forall|imp: Impersonate, os: ImpersonateOS| 0 <= #[trigger] slot(imp, os) < PROFILE_SLOTS by {
                lemma_slot_unique(imp, os, imp, os);
            }
        }
        ProfileCache { entries }
    }

    /// Builds the profile of a key unless it is cached; a cached profile is
    /// never rebuilt or replaced.
    pub fn load(&mut self, imp: Impersonate, os: ImpersonateOS)
        requires
            old(self).wf(),
        ensures
            final(self).wf(),
            final(self).cached(imp, os) matches Some(p) && profile_spec(p, imp, os),
            old(self).cached(imp, os) is Some ==> final(self).cached(imp, os) == old(self).cached(imp, os),
            forall|i: Impersonate, o: ImpersonateOS| (i != imp || o != os) ==> #[trigger] final(self).cached(i, o)
                == old(self).cached(i, o),
    {
        proof {
            lemma_slot_unique(imp, os, imp, os);
        }
        let k = slot_of(imp, os);
        if self.entries[k].is_some() {
            return;
        }
        let built = build_browser_settings(imp, os);
        let ghost before = self.entries@;
        self.entries.set(k, Some(built));
        proof {
            assert forall|i: Impersonate, o: ImpersonateOS| (#[trigger] self.entries@[slot(i, o)]) is Some
                implies profile_spec(self.entries@[slot(i, o)].unwrap()@, i, o) by {
                lemma_slot_unique(i, o, imp, os);
            }
            assert forall|i: Impersonate, o: ImpersonateOS| (i != imp || o != os) implies
                self.entries@[slot(i, o)] == before[slot(i, o)] by {
                lemma_slot_unique(i, o, imp, os);
            }
        }
    }

    /// The profile of a key, if it was built.
    pub fn get(&self, imp: Impersonate, os: ImpersonateOS) -> (r: Option<&BrowserSettings>)
        requires
            self.wf(),
        ensures
            match r {
                Some(p) => self.cached(imp, os) == Some(p@) && profile_spec(p@, imp, os),
                None => self.cached(imp, os) is None,
            },
    {
        proof {
            lemma_slot_unique(imp, os, imp, os);
        }
        let k = slot_of(imp, os);
        self.entries[k].as_ref()
    }
}

} // verus!
