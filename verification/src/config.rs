//! Per-tenant configuration the core owns: today, the stored volume. The
//! surrounding program mirrors every write to the durable store; when that
//! mirror write fails, the value here is deliberately kept, not rolled back,
//! and the failure is reported beside it.

use vstd::prelude::*;

use crate::track::{DEFAULT_VOLUME, MAX_VOLUME};

verus! {

/// One tenant's stored settings.
pub struct GuildConfig {
    /// The tenant the settings belong to; never changes.
    pub tenant: u64,
    /// The stored volume, in hundredths of full scale.
    pub volume: u32,
}

/// The index of the first config for `t`, or -1 when none is held.
pub open spec fn find_config(s: Seq<GuildConfig>, t: u64) -> int
    decreases s.len(),
{
    if s.len() == 0 {
        -1
    } else if s[0].tenant == t {
        0
    } else {
        let r = find_config(s.drop_first(), t);
        if r == -1 {
            -1
        } else {
            r + 1
        }
    }
}

/// `find_config` finds a config for `t` exactly when one is held, and then
/// the first one.
pub proof fn lemma_find_config_props(s: Seq<GuildConfig>, t: u64)
    ensures
        find_config(s, t) == -1 ==> forall|i: int| 0 <= i < s.len() ==> s[i].tenant != t,
        find_config(s, t) != -1 ==> {
            &&& 0 <= find_config(s, t) < s.len()
            &&& s[find_config(s, t)].tenant == t
            &&& forall|i: int| 0 <= i < find_config(s, t) ==> s[i].tenant != t
        },
    decreases s.len(),
{
    if s.len() > 0 && s[0].tenant != t {
        lemma_find_config_props(s.drop_first(), t);
        assert forall|i: int| 1 <= i < s.len() implies s[i] == s.drop_first()[i - 1] by {}
    }
}

/// Two stores whose configs serve the same tenants position-by-position are
/// searched alike.
pub proof fn lemma_find_config_same_tenants(s1: Seq<GuildConfig>, s2: Seq<GuildConfig>, t: u64)
    requires
        s1.len() == s2.len(),
        forall|i: int| 0 <= i < s1.len() ==> s1[i].tenant == #[trigger] s2[i].tenant,
    ensures
        find_config(s1, t) == find_config(s2, t),
    decreases s1.len(),
{
    if s1.len() > 0 {
        assert forall|i: int|
            0 <= i < s1.drop_first().len() implies s1.drop_first()[i].tenant == #[trigger] s2
            .drop_first()[i].tenant by {
            assert(s1.drop_first()[i] == s1[i + 1]);
            assert(s2.drop_first()[i] == s2[i + 1]);
        }
        lemma_find_config_same_tenants(s1.drop_first(), s2.drop_first(), t);
    }
}

/// Appending a config moves no search result: tenants already held are
/// found where they were, and the new tenant is found at the tail.
pub proof fn lemma_find_config_push(s: Seq<GuildConfig>, x: GuildConfig, t: u64)
    ensures
        find_config(s, t) != -1 ==> find_config(s.push(x), t) == find_config(s, t),
        find_config(s, t) == -1 && x.tenant == t ==> find_config(s.push(x), t) == s.len(),
        find_config(s, t) == -1 && x.tenant != t ==> find_config(s.push(x), t) == -1,
    decreases s.len(),
{
    lemma_find_config_props(s, t);
    if s.len() == 0 {
        assert(s.push(x)[0] == x);
        assert(s.push(x).drop_first() =~= Seq::<GuildConfig>::empty());
        assert(find_config(Seq::<GuildConfig>::empty(), t) == -1);
    } else {
        lemma_find_config_push(s.drop_first(), x, t);
        lemma_find_config_props(s.drop_first(), t);
        lemma_find_config_props(s.drop_first().push(x), t);
        assert(s.push(x)[0] == s[0]);
        assert(s.push(x).drop_first() =~= s.drop_first().push(x));
        if s[0].tenant != t && find_config(s.drop_first(), t) == -1 && x.tenant == t {
            assert(find_config(s.drop_first().push(x), t) == s.drop_first().len());
            assert(find_config(s.push(x), t) == s.len());
        }
    }
}

/// Every tenant's stored settings, at most one entry per tenant. A tenant
/// with no entry has the default volume.
pub struct VolumeStore {
    entries: Vec<GuildConfig>,
}

impl View for VolumeStore {
    type V = Seq<GuildConfig>;

    closed spec fn view(&self) -> Seq<GuildConfig> {
        self.entries@
    }
}

impl VolumeStore {
    /// No tenant is held twice, and every stored volume is within full
    /// scale.
    pub open spec fn wf(&self) -> bool {
        &&& forall|i: int, j: int|
            0 <= i < j < self@.len() ==> (#[trigger] self@[i]).tenant != (#[trigger] self@[j]).tenant
        &&& forall|i: int| 0 <= i < self@.len() ==> (#[trigger] self@[i]).volume <= MAX_VOLUME
    }

    /// Whether `t` has a stored entry.
    pub open spec fn has_entry(&self, t: u64) -> bool {
        find_config(self@, t) != -1
    }

    /// The volume `t` plays at: the stored one, or the default when none
    /// was ever stored.
    pub open spec fn spec_volume(&self, t: u64) -> u32 {
        if find_config(self@, t) != -1 {
            self@[find_config(self@, t)].volume
        } else {
            DEFAULT_VOLUME
        }
    }

    /// An empty store: every tenant at the default volume.
    pub fn new() -> (r: VolumeStore)
        ensures
            r@ == Seq::<GuildConfig>::empty(),
            r.wf(),
            forall|u: u64| #[trigger] r.spec_volume(u) == DEFAULT_VOLUME,
    {
        let r = VolumeStore { entries: Vec::new() };
        proof {
            assert(r@ =~= Seq::<GuildConfig>::empty());
        }
        r
    }

    /// Where `t`'s entry sits in the store, if anywhere.
    fn index_of(&self, t: u64) -> (r: Option<usize>)
        ensures
            match r {
                Some(i) => self.has_entry(t) && i == find_config(self@, t) && i < self@.len(),
                None => !self.has_entry(t),
            },
    {
        let mut i: usize = 0;
        while i < self.entries.len()
            invariant
                i <= self@.len(),
                forall|j: int| 0 <= j < i ==> (#[trigger] self@[j]).tenant != t,
            decreases self@.len() - i,
        {
            if self.entries[i].tenant == t {
                proof {
                    lemma_find_config_props(self@, t);
                }
                return Some(i);
            }
            i = i + 1;
        }
        proof {
            lemma_find_config_props(self@, t);
        }
        None
    }

    /// The volume `t` plays at, read whenever a track is created.
    pub fn get_volume(&self, t: u64) -> (v: u32)
        requires
            self.wf(),
        ensures
            v == self.spec_volume(t),
            v <= MAX_VOLUME,
    {
        match self.index_of(t) {
            Some(i) => self.entries[i].volume,
            None => DEFAULT_VOLUME,
        }
    }

    /// Stores `t`'s volume, creating the entry when none is held. Every
    /// other tenant's volume is untouched.
    pub fn set_volume(&mut self, t: u64, volume: u32)
        requires
            volume <= MAX_VOLUME,
            old(self).wf(),
        ensures
            final(self).wf(),
            final(self).spec_volume(t) == volume,
            final(self).has_entry(t),
            forall|u: u64|
                u != t ==> #[trigger] final(self).spec_volume(u) == old(self).spec_volume(u),
            forall|u: u64| u != t ==> #[trigger] final(self).has_entry(u) == old(self).has_entry(u),
    {
        let ghost pre = *self;
        match self.index_of(t) {
            Some(i) => {
                let entry = &mut self.entries[i];
                entry.volume = volume;
                proof {
                    lemma_find_config_props(pre@, t);
                    assert forall|i2: int|
                        0 <= i2 < pre@.len() implies pre@[i2].tenant == #[trigger] self@[i2].tenant by {}
                    assert forall|u: u64| #[trigger]
                        find_config(self@, u) == find_config(pre@, u) by {
                        lemma_find_config_same_tenants(pre@, self@, u);
                    }
                    assert forall|u: u64|
                        u != t && pre.has_entry(u) implies self.spec_volume(u) == #[trigger] pre
                        .spec_volume(u) by {
                        lemma_find_config_props(pre@, u);
                    }
                    assert forall|u: u64|
                        u != t implies #[trigger] self.has_entry(u) == pre.has_entry(u) by {
                        lemma_find_config_same_tenants(pre@, self@, u);
                    }
                }
            },
            None => {
                let x = GuildConfig { tenant: t, volume };
                let ghost gx = x;
                self.entries.push(x);
                proof {
                    lemma_find_config_push(pre@, gx, t);
                    lemma_find_config_props(pre@, t);
                    assert(self@[pre@.len() as int] == gx);
                    assert forall|u: u64|
                        u != t implies #[trigger] self.spec_volume(u) == pre.spec_volume(u) by {
                        lemma_find_config_push(pre@, gx, u);
                        lemma_find_config_props(pre@, u);
                    }
                    assert forall|u: u64|
                        u != t implies #[trigger] self.has_entry(u) == pre.has_entry(u) by {
                        lemma_find_config_push(pre@, gx, u);
                        lemma_find_config_props(pre@, u);
                    }
                    assert forall|i: int, j: int|
                        0 <= i < j < self@.len() implies (#[trigger] self@[i]).tenant != (
                    #[trigger] self@[j]).tenant by {
                        if j < pre@.len() {
                            assert(self@[i] == pre@[i] && self@[j] == pre@[j]);
                        } else {
                            assert(self@[j] == gx);
                            assert(self@[i] == pre@[i]);
                        }
                    }
                }
            },
        }
    }

    /// Makes sure `t` has a stored entry, writing the default volume when
    /// none is held; an entry already stored is kept as it is. Run when a
    /// tenant first appears.
    pub fn ensure_entry(&mut self, t: u64)
        requires
            old(self).wf(),
        ensures
            final(self).wf(),
            final(self).has_entry(t),
            final(self).spec_volume(t) == old(self).spec_volume(t),
            old(self).has_entry(t) ==> *final(self) == *old(self),
            forall|u: u64|
                u != t ==> #[trigger] final(self).spec_volume(u) == old(self).spec_volume(u),
            forall|u: u64| u != t ==> #[trigger] final(self).has_entry(u) == old(self).has_entry(u),
    {
        match self.index_of(t) {
            Some(_) => (),
            None => {
                self.set_volume(t, DEFAULT_VOLUME);
            },
        }
    }
}

} // verus!
