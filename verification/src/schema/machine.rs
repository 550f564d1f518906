//! Machines of the cluster.
use vstd::prelude::*;
use crate::text::{opt_str_view, opt_view, str_eq};

verus! {

/// A host node running fleetd.
#[derive(Debug, Clone, PartialEq, Eq)]
pub struct Machine {
    /// The machine's unique ID.
    pub id: String,
    /// Arbitrary fleet metadata associated with the machine: a mapping, held as pairs of a key
    /// and its value in the order in which the daemon reported them. In a machine that was
    /// decoded no key occurs twice.
    pub metadata: Vec<(String, String)>,
    /// The machine's IP address.
    pub primary_ip: String,
}

/// Whether no key occurs twice among `pairs`, so that they are a mapping.
pub open spec fn keys_are_distinct(pairs: Seq<(Seq<char>, Seq<char>)>) -> bool {
    forall|i: int, j: int|
        0 <= i < j < pairs.len() ==> (#[trigger] pairs[i]).0 != (#[trigger] pairs[j]).0
}

/// The mathematical model of a [`Machine`].
pub struct MachineView {
    pub id: Seq<char>,
    pub metadata: Seq<(Seq<char>, Seq<char>)>,
    pub primary_ip: Seq<char>,
}

impl MachineView {
    /// Whether the metadata is a mapping: no key occurs twice.
    pub open spec fn well_formed(self) -> bool {
        keys_are_distinct(self.metadata)
    }

    /// The value that the metadata holds under `key`, if it holds one.
    pub open spec fn metadata_at(self, key: Seq<char>) -> Option<Seq<char>> {
        value_from(self.metadata, key, 0)
    }
}

/// The value of the first pair at or after position `start` whose key is
/// `key`, if there is one.
pub open spec fn value_from(pairs: Seq<(Seq<char>, Seq<char>)>, key: Seq<char>, start: int) -> Option<
    Seq<char>,
>
    decreases pairs.len() - start,
{
    if start < 0 || start >= pairs.len() {
        None
    } else if pairs[start].0 == key {
        Some(pairs[start].1)
    } else {
        value_from(pairs, key, start + 1)
    }
}

impl View for Machine {
    type V = MachineView;

    open spec fn view(&self) -> MachineView {
        MachineView {
            id: self.id@,
            metadata: self.metadata@.map_values(|pair: (String, String)| (pair.0@, pair.1@)),
            primary_ip: self.primary_ip@,
        }
    }
}

impl Machine {
    /// Looks up the value that the metadata holds under `key`.
    pub fn metadata_value(&self, key: &str) -> (r: Option<&str>)
        ensures
            opt_str_view(r) == self@.metadata_at(key@),
    {
        let mut i: usize = 0;
        while i < self.metadata.len()
            invariant
                i <= self.metadata.len(),
                self@.metadata.len() == self.metadata@.len(),
                forall|j: int|
                    0 <= j < self.metadata@.len() ==> (#[trigger] self@.metadata[j]) == (
                        self.metadata@[j].0@,
                        self.metadata@[j].1@,
                    ),
                self@.metadata_at(key@) == value_from(self@.metadata, key@, i as int),
            decreases self.metadata.len() - i,
        {
            if str_eq(self.metadata[i].0.as_str(), key) {
                return Some(self.metadata[i].1.as_str());
            }
            i = i + 1;
        }
        None
    }
}

/// A single page from a paginated collection of machines.
#[derive(Debug, Clone, PartialEq, Eq)]
pub struct MachinePage {
    /// The machines in this page.
    pub machines: Vec<Machine>,
    /// If `Some`, at least one additional page is available and can be requested with this token.
    pub next_page_token: Option<String>,
}

/// The mathematical model of a [`MachinePage`].
pub struct MachinePageView {
    pub machines: Seq<MachineView>,
    pub next_page_token: Option<Seq<char>>,
}

impl View for MachinePage {
    type V = MachinePageView;

    open spec fn view(&self) -> MachinePageView {
        MachinePageView {
            machines: self.machines@.map_values(|m: Machine| m@),
            next_page_token: opt_view(self.next_page_token),
        }
    }
}

} // verus!
