//! The registry of channels: which adapter answers to which name.
//!
//! The registry is filled once, at startup, and only read after that. A name
//! is registered once; a send goes to the entry of that name, and a name
//! that is not registered is an error.

use crate::text::same_text;
use vstd::prelude::*;
use vstd::string::StringExecFns;

verus! {

/// One registered channel: its name and what the registry keeps for it.
///
/// `T` is the live adapter together with the configuration it was made from.
/// An adapter that keeps its own configuration, as the iMessage channel keeps
/// its allow-list and poll interval, carries that snapshot itself; for one
/// that does not, `T` is the pair of adapter and snapshot.
pub struct ChannelEntry<T> {
    pub name: String,
    pub channel: T,
}

/// No channel is registered under the name.
#[derive(Debug)]
pub struct UnknownChannel {
    pub name: String,
}

/// A channel is registered under the name already.
#[derive(Debug)]
pub struct DuplicateChannel {
    pub name: String,
}

/// The text that says that no channel has the name.
pub open spec fn unknown_channel_text(name: Seq<char>) -> Seq<char> {
    "Unknown channel: "@ + name
}

impl UnknownChannel {
    /// The text of the error.
    pub fn message(&self) -> (r: String)
        ensures
            r@ == unknown_channel_text(self.name@),
    {
        let mut r = String::new();
        r.append("Unknown channel: ");
        r.append(self.name.as_str());
        r
    }
}

/// The names of the entries, in the order in which they were registered.
pub open spec fn names_of<T>(entries: Seq<ChannelEntry<T>>) -> Seq<Seq<char>> {
    entries.map_values(|e: ChannelEntry<T>| e.name@)
}

/// No name occurs twice.
pub open spec fn distinct(names: Seq<Seq<char>>) -> bool {
    forall|i: int, j: int| 0 <= i < j < names.len() ==> names[i] != names[j]
}

/// The channels of a process, by name.
pub struct ChannelRegistry<T> {
    entries: Vec<ChannelEntry<T>>,
}

impl<T> ChannelRegistry<T> {
    /// The entries, in the order in which they were registered.
    pub closed spec fn entries(&self) -> Seq<ChannelEntry<T>> {
        self.entries@
    }

    /// The names registered, in order.
    pub open spec fn names(&self) -> Seq<Seq<char>> {
        names_of(self.entries())
    }

    /// A registry holds no name twice.
    pub open spec fn wf(&self) -> bool {
        distinct(self.names())
    }

    /// Where `name` is registered; the number of entries if it is not.
    pub open spec fn slot(&self, name: Seq<char>) -> int {
        if self.names().contains(name) {
            self.names().index_of(name)
        } else {
            self.names().len() as int
        }
    }

    /// A registry with no channel.
    pub fn new() -> (registry: Self)
        ensures
            registry.wf(),
            registry.entries().len() == 0,
    {
        ChannelRegistry { entries: Vec::new() }
    }

    /// How many channels are registered.
    pub fn len(&self) -> (n: usize)
        ensures
            n == self.entries().len(),
    {
        self.entries.len()
    }

    /// The entry that was registered as the `i`-th.
    pub fn entry(&self, i: usize) -> (e: &ChannelEntry<T>)
        requires
            i < self.entries().len(),
        ensures
            *e == self.entries()[i as int],
    {
        &self.entries[i]
    }

    fn find(&self, name: &str) -> (at: usize)
        ensures
            at <= self.entries().len(),
            at < self.entries().len() ==> self.names()[at as int] == name@,
            forall|k: int| 0 <= k < at ==> self.names()[k] != name@,
            at == self.entries().len() ==> !self.names().contains(name@),
    {
        let mut at: usize = 0;
        while at < self.entries.len()
            invariant
                at <= self.entries.len(),
                forall|k: int| 0 <= k < at ==> self.names()[k] != name@,
            decreases self.entries.len() - at,
        {
            if same_text(self.entries[at].name.as_str(), name) {
                return at;
            }
            at = at + 1;
        }
        at
    }

    /// Registers a channel under `name`, unless the name is taken. The
    /// entries that are there stay as they are.
    pub fn register(&mut self, name: &str, channel: T) -> (r: Result<(), DuplicateChannel>)
        requires
            old(self).wf(),
        ensures
            final(self).wf(),
            match r {
                Ok(()) => {
                    &&& !old(self).names().contains(name@)
                    &&& final(self).entries().len() == old(self).entries().len() + 1
                    &&& final(self).entries().subrange(0, old(self).entries().len() as int) == old(
                        self,
                    ).entries()
                    &&& final(self).entries().last().name@ == name@
                    &&& final(self).entries().last().channel == channel
                },
                Err(error) => {
                    &&& old(self).names().contains(name@)
                    &&& final(self).entries() == old(self).entries()
                    &&& error.name@ == name@
                },
            },
    {
        let at = self.find(name);
        if at < self.entries.len() {
            assert(self.names().contains(name@));
            return Err(DuplicateChannel { name: name.to_owned() });
        }
        let ghost before = self.entries@;
        self.entries.push(ChannelEntry { name: name.to_owned(), channel });
        proof {
            let after = self.entries@;
            assert(after.subrange(0, before.len() as int) == before);
            assert forall|i: int, j: int| 0 <= i < j < after.len() implies names_of(after)[i]
                != names_of(after)[j] by {
                assert(i < before.len() ==> names_of(after)[i] == names_of(before)[i]);
                if j < before.len() {
                    assert(names_of(after)[j] == names_of(before)[j]);
                } else {
                    assert(names_of(after)[j] == name@);
                    assert(names_of(before).contains(names_of(before)[i]));
                }
            }
        }
        Ok(())
    }

    /// The channel registered under `name`.
    pub fn get(&self, name: &str) -> (r: Result<&T, UnknownChannel>)
        requires
            self.wf(),
        ensures
            match r {
                Ok(channel) => {
                    &&& self.names().contains(name@)
                    &&& 0 <= self.slot(name@) < self.entries().len()
                    &&& *channel == self.entries()[self.slot(name@)].channel
                },
                Err(error) => !self.names().contains(name@) && error.name@ == name@,
            },
    {
        let at = self.find(name);
        if at < self.entries.len() {
            proof {
                let names = self.names();
                assert(names.contains(name@));
                let first = names.index_of(name@);
                assert(0 <= first < names.len() && names[first] == name@);
                if first != at {
                    if first < at {
                        assert(names[first] != names[at as int]);
                    } else {
                        assert(names[at as int] != names[first]);
                    }
                }
            }
            Ok(&self.entries[at].channel)
        } else {
            Err(UnknownChannel { name: name.to_owned() })
        }
    }
}

/// In a registry, a name stands for one entry: two slots with the same name
/// are the same slot.
pub proof fn lemma_names_are_keys(names: Seq<Seq<char>>, i: int, j: int)
    requires
        distinct(names),
        0 <= i < names.len(),
        0 <= j < names.len(),
        names[i] == names[j],
    ensures
        i == j,
{
    if i < j {
        assert(names[i] != names[j]);
    } else if j < i {
        assert(names[j] != names[i]);
    }
}

} // verus!
