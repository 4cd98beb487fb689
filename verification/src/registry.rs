//! The registry of named base providers: a read-only mapping from provider
//! name to a handle on a credential-supplying object. The objects themselves
//! live with the surrounding application; the chain only ever stores and
//! hands back their handles.

use vstd::prelude::*;

verus! {

/// An opaque handle on one named credential provider. The application that
/// fills the registry chooses the numbering and keeps the providers
/// themselves; the chain never looks inside a handle.
#[derive(Clone, Copy, Debug, PartialEq, Eq, Structural)]
pub struct ProviderHandle {
    pub id: u64,
}

/// A read-only registry from provider name to provider handle. Lookup is
/// pure: a missing name is an absence, not an error; the caller decides how
/// to treat it.
pub struct NamedProviderFactory {
    providers: Vec<(String, ProviderHandle)>,
}

/// The handle an entry list associates with a name: that of the first entry
/// whose name matches.
pub open spec fn spec_lookup_entries(
    entries: Seq<(String, ProviderHandle)>,
    name: Seq<char>,
) -> Option<ProviderHandle>
    decreases entries.len(),
{
    if entries.len() == 0 {
        None
    } else if entries[0].0@ == name {
        Some(entries[0].1)
    } else {
        spec_lookup_entries(entries.drop_first(), name)
    }
}

/// A lookup is unchanged by dropping a prefix in which no entry matches.
proof fn lemma_lookup_skips_mismatches(
    entries: Seq<(String, ProviderHandle)>,
    name: Seq<char>,
    i: int,
)
    requires
        0 <= i <= entries.len(),
        forall|j: int| 0 <= j < i ==> (#[trigger] entries[j].0)@ != name,
    ensures
        spec_lookup_entries(entries, name) == spec_lookup_entries(entries.skip(i), name),
    decreases i,
{
    if i > 0 {
        lemma_lookup_skips_mismatches(entries.drop_first(), name, i - 1);
        assert(entries.drop_first().skip(i - 1) =~= entries.skip(i));
    } else {
        assert(entries.skip(0) =~= entries);
    }
}

impl NamedProviderFactory {
    /// The registry's entries, name to handle, in registration order.
    pub closed spec fn entries(&self) -> Seq<(String, ProviderHandle)> {
        self.providers@
    }

    /// The handle registered under a name, if any: that of the first entry
    /// with the name.
    pub open spec fn spec_lookup(&self, name: Seq<char>) -> Option<ProviderHandle> {
        spec_lookup_entries(self.entries(), name)
    }

    /// Builds a registry over an already-built list of entries; the mapping
    /// is read-only from then on.
    pub fn new(providers: Vec<(String, ProviderHandle)>) -> (r: Self)
        ensures
            r.entries() == providers@,
    {
        NamedProviderFactory { providers }
    }

    /// Looks a provider up by name. Pure and synchronous; absence is
    /// reported as `None`, never as an error.
    pub fn provider(&self, name: &str) -> (r: Option<ProviderHandle>)
        ensures
            r == self.spec_lookup(name@),
    {
        let sought: String = name.to_owned();
        let n: usize = self.providers.len();
        let mut i: usize = 0;
        while i < n
            invariant
                0 <= i <= n,
                n == self.providers@.len(),
                sought@ == name@,
                forall|j: int| 0 <= j < i ==> (#[trigger] self.providers@[j].0)@ != name@,
            decreases n - i,
        {
            if self.providers[i].0 == sought {
                proof {
                    lemma_lookup_skips_mismatches(self.providers@, name@, i as int);
                    assert(self.providers@.skip(i as int)[0] == self.providers@[i as int]);
                }
                return Some(self.providers[i].1);
            }
            i = i + 1;
        }
        proof {
            lemma_lookup_skips_mismatches(self.providers@, name@, n as int);
        }
        None
    }
}

} // verus!
