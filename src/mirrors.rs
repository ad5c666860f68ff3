use vstd::prelude::*;
use vstd::string::*;

verus! {

/// A source endpoint for package metadata and archives.
#[derive(Clone, Debug, PartialEq, Eq)]
pub struct Mirror {
    pub name: String,
    pub url: String,
    pub priority: u8,
    pub enabled: bool,
}

/// The mirrors as they were loaded, in load order; names need not be unique.
#[derive(Clone, Debug, PartialEq, Eq)]
pub struct MirrorList {
    pub mirrors: Vec<Mirror>,
}

/// Whether `m` is enabled and has priority `p`.
pub open spec fn in_bucket(m: Mirror, p: int) -> bool {
    m.enabled && m.priority as int == p
}

/// The enabled mirrors of `s` with priority `p`, in their order in `s`.
pub open spec fn bucket(s: Seq<Mirror>, p: int) -> Seq<Mirror> {
    s.filter(|m: Mirror| in_bucket(m, p))
}

/// The enabled mirrors of `s` with priority at least `lo`: highest priority
/// first, mirrors of equal priority in their order in `s`.
pub open spec fn ordered_from(s: Seq<Mirror>, lo: int) -> Seq<Mirror>
    decreases 256 - lo,
{
    if lo >= 256 {
        Seq::empty()
    } else {
        ordered_from(s, lo + 1) + bucket(s, lo)
    }
}

/// The order in which mirrors are tried: a stable sort of `s` by descending
/// priority, with the disabled mirrors left out.
pub open spec fn ordered(s: Seq<Mirror>) -> Seq<Mirror> {
    ordered_from(s, 0)
}

pub(crate) fn copy_mirror(m: &Mirror) -> (r: Mirror)
    ensures
        r == *m,
{
    Mirror { name: m.name.clone(), url: m.url.clone(), priority: m.priority, enabled: m.enabled }
}

impl MirrorList {
    /// The mirrors to try, in order: highest priority first, ties kept in load
    /// order, disabled mirrors excluded.
    pub fn get_mirrors(&self) -> (r: Vec<Mirror>)
        ensures
            r@ == ordered(self.mirrors@),
    {
        broadcast use Seq::lemma_filter_push;

        let ghost s = self.mirrors@;
        let mut out: Vec<Mirror> = Vec::new();
        let mut p: u16 = 256;
        while p > 0
            invariant
                s == self.mirrors@,
                p <= 256,
                out@ == ordered_from(s, p as int),
            decreases p,
        {
            p = p - 1;
            let ghost before = out@;
            let mut i: usize = 0;
            while i < self.mirrors.len()
                invariant
                    s == self.mirrors@,
                    p < 256,
                    i <= s.len(),
                    out@ == before + bucket(s.take(i as int), p as int),
                decreases s.len() - i,
            {
                let m = &self.mirrors[i];
                assert(s.take(i + 1) == s.take(i as int).push(s[i as int]));
                proof {
                    s.take(i as int).lemma_filter_push(s[i as int], |m: Mirror| in_bucket(m, p as int));
                }
                if m.enabled && m.priority as u16 == p {
                    out.push(copy_mirror(m));
                }
                i = i + 1;
            }
            assert(s.take(s.len() as int) == s);
        }
        out
    }
}

/// Every mirror of the ordered sequence is enabled, and priorities never
/// increase along it.
pub proof fn lemma_ordered_enabled_and_sorted(s: Seq<Mirror>)
    ensures
        forall|i: int| 0 <= i < ordered(s).len() ==> (#[trigger] ordered(s)[i]).enabled,
        forall|i: int, j: int|
            0 <= i < j < ordered(s).len() ==> (#[trigger] ordered(s)[i]).priority
                >= (#[trigger] ordered(s)[j]).priority,
{
    lemma_ordered_from(s, 0);
}

proof fn lemma_ordered_from(s: Seq<Mirror>, lo: int)
    requires
        0 <= lo <= 256,
    ensures
        forall|i: int|
            0 <= i < ordered_from(s, lo).len() ==> (#[trigger] ordered_from(s, lo)[i]).enabled
                && ordered_from(s, lo)[i].priority >= lo,
        forall|i: int, j: int|
            0 <= i < j < ordered_from(s, lo).len() ==> (#[trigger] ordered_from(s, lo)[i]).priority
                >= (#[trigger] ordered_from(s, lo)[j]).priority,
    decreases 256 - lo,
{
    broadcast use vstd::seq_lib::group_filter_ensures;

    if lo < 256 {
        lemma_ordered_from(s, lo + 1);
        let a = ordered_from(s, lo + 1);
        let b = bucket(s, lo);
        assert forall|i: int| 0 <= i < b.len() implies #[trigger] b[i].enabled && b[i].priority
            == lo by {
            assert(in_bucket(b[i], lo));
        }
        assert(ordered_from(s, lo) == a + b);
    }
}

/// Where the mirror list comes from.
#[derive(Clone, Copy, Debug, PartialEq, Eq)]
pub enum ConfigSource {
    /// The user's configuration file.
    User,
    /// The system configuration file.
    System,
    /// The built-in list.
    BuiltIn,
}

impl MirrorList {
    /// The user's configuration where its file exists, else the system's
    /// where its file exists, else the built-in list.
    pub fn source(user_config_exists: bool, system_config_exists: bool) -> (r: ConfigSource)
        ensures
            user_config_exists ==> r == ConfigSource::User,
            !user_config_exists && system_config_exists ==> r == ConfigSource::System,
            !user_config_exists && !system_config_exists ==> r == ConfigSource::BuiltIn,
    {
        if user_config_exists {
            ConfigSource::User
        } else if system_config_exists {
            ConfigSource::System
        } else {
            ConfigSource::BuiltIn
        }
    }
}

impl Default for MirrorList {
    /// One enabled mirror on the local host, with priority 100.
    fn default() -> (r: MirrorList)
        ensures
            r.mirrors@.len() == 1,
            r.mirrors@[0].name@ == "Mirror @ Local"@,
            r.mirrors@[0].url@ == "http://localhost:8080"@,
            r.mirrors@[0].priority == 100,
            r.mirrors@[0].enabled,
    {
        let mut mirrors: Vec<Mirror> = Vec::new();
        mirrors.push(
            Mirror {
                name: String::from_str("Mirror @ Local"),
                url: String::from_str("http://localhost:8080"),
                priority: 100,
                enabled: true,
            },
        );
        MirrorList { mirrors }
    }
}

} // verus!
