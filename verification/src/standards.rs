//! The standards-discovery table: pure bookkeeping that other systems use to
//! find capability implementations.
//!
//! `setImplementors` overwrites the whole entry for an identifier; an empty
//! implementer list is a valid registered state, distinct from absence.
//! `supports` answers one result per queried identifier, in query order.
use vstd::pervasive::VecAdditionalExecFns;
use vstd::prelude::*;

use crate::guard::{check_access, spec_guard};
use crate::registry::{impl_entries, State, StateView};
use crate::table::{
    lemma_map_of_contains, lemma_map_of_index, lemma_map_of_push, lemma_map_of_update,
};
use crate::types::{
    Address, ContractAddress, ContractError, StandardIdentifier, SupportResult,
};

verus! {

/// The identifiers of a list, each taken to its view.
pub open spec fn native_ids(list: Seq<StandardIdentifier>) -> Seq<Seq<u8>> {
    list.map_values(|x: StandardIdentifier| x@)
}

/// Full outcome of `setImplementors`: admin-gated and pause-gated;
/// overwrites any existing entry for the identifier wholesale.
pub open spec fn spec_set_implementors(
    v: StateView,
    sender: Address,
    id: Seq<u8>,
    implementers: Seq<ContractAddress>,
) -> (Result<(), ContractError>, StateView) {
    match spec_guard(v.paused, v.admin, sender, true) {
        Err(e) => (Err(e), v),
        Ok(_) => (
            Ok(()),
            StateView { implementors: v.implementors.insert(id, implementers), ..v },
        ),
    }
}

/// The answer owed to one discovery query: `Support` when the registry
/// itself implements the standard natively, else the registered implementer
/// list when one is present (possibly empty), else `NoSupport`.
pub open spec fn support_matches(
    v: StateView,
    native: Seq<Seq<u8>>,
    id: Seq<u8>,
    r: SupportResult,
) -> bool {
    if native.contains(id) {
        r is Support
    } else if v.implementors.contains_key(id) {
        r matches SupportResult::SupportBy(list) && list@ == v.implementors[id]
    } else {
        r is NoSupport
    }
}

/// Byte-string equality.
fn bytes_eq(a: &Vec<u8>, b: &Vec<u8>) -> (r: bool)
    ensures
        r == (a@ == b@),
{
    if a.len() != b.len() {
        return false;
    }
    let mut i: usize = 0;
    while i < a.len()
        invariant
            a@.len() == b@.len(),
            i <= a@.len(),
            forall|j: int| 0 <= j < i ==> a@[j] == b@[j],
        decreases a@.len() - i,
    {
        if a[i] != b[i] {
            return false;
        }
        i = i + 1;
    }
    proof {
        assert(a@ =~= b@);
    }
    true
}

/// An element-wise copy of an implementer list.
fn copy_list(list: &Vec<ContractAddress>) -> (r: Vec<ContractAddress>)
    ensures
        r@ == list@,
{
    let mut r: Vec<ContractAddress> = Vec::new();
    let mut i: usize = 0;
    while i < list.len()
        invariant
            i <= list@.len(),
            r@.len() == i,
            forall|j: int| 0 <= j < i ==> r@[j] == list@[j],
        decreases list@.len() - i,
    {
        r.push(list[i]);
        i = i + 1;
    }
    proof {
        assert(r@ =~= list@);
    }
    r
}

/// Whether the list holds the identifier.
fn contains_id(list: &Vec<StandardIdentifier>, id: &StandardIdentifier) -> (r: bool)
    ensures
        r == native_ids(list@).contains(id@),
{
    let mut i: usize = 0;
    while i < list.len()
        invariant
            i <= list@.len(),
            forall|j: int| 0 <= j < i ==> native_ids(list@)[j] != id@,
        decreases list@.len() - i,
    {
        if bytes_eq(&list[i].bytes, &id.bytes) {
            proof {
                assert(native_ids(list@)[i as int] == id@);
            }
            return true;
        }
        proof {
            assert(native_ids(list@)[i as int] == list@[i as int]@);
        }
        i = i + 1;
    }
    proof {
        assert forall|j: int| 0 <= j < native_ids(list@).len() implies native_ids(list@)[j]
            != id@ by {}
    }
    false
}

/// Whether the implementors entries hold pairwise-distinct identifiers.
pub(crate) fn implementor_keys_are_distinct(
    entries: &Vec<(StandardIdentifier, Vec<ContractAddress>)>,
) -> (r: bool)
    ensures
        r == crate::table::keys_distinct(impl_entries(entries@)),
{
    let mut i: usize = 0;
    while i < entries.len()
        invariant
            i <= entries@.len(),
            forall|a: int, b: int| 0 <= a < b < i ==> entries@[a].0@ != entries@[b].0@,
        decreases entries@.len() - i,
    {
        let mut j: usize = 0;
        while j < i
            invariant
                i < entries@.len(),
                j <= i,
                forall|a: int, b: int| 0 <= a < b < i ==> entries@[a].0@ != entries@[b].0@,
                forall|a: int| 0 <= a < j ==> entries@[a].0@ != entries@[i as int].0@,
            decreases i - j,
        {
            if bytes_eq(&entries[j].0.bytes, &entries[i].0.bytes) {
                proof {
                    assert(impl_entries(entries@)[j as int].0 == impl_entries(entries@)[
                        i as int
                    ].0);
                }
                return false;
            }
            j = j + 1;
        }
        i = i + 1;
    }
    proof {
        assert forall|a: int, b: int|
            0 <= a < b < impl_entries(entries@).len() implies impl_entries(entries@)[a].0
            != impl_entries(entries@)[b].0 by {
            assert(impl_entries(entries@)[a].0 == entries@[a].0@);
            assert(impl_entries(entries@)[b].0 == entries@[b].0@);
        }
    }
    true
}

impl State {
    /// The index of the identifier's entry, if any.
    fn find_standard(&self, id: &StandardIdentifier) -> (r: Option<usize>)
        ensures
            match r {
                Some(i) => i < self.implementors@.len() && self.implementors@[i as int].0@ == id@,
                None => forall|j: int|
                    0 <= j < self.implementors@.len() ==> self.implementors@[j].0@ != id@,
            },
    {
        let mut i: usize = 0;
        while i < self.implementors.len()
            invariant
                i <= self.implementors@.len(),
                forall|j: int| 0 <= j < i ==> self.implementors@[j].0@ != id@,
            decreases self.implementors@.len() - i,
        {
            if bytes_eq(&self.implementors[i].0.bytes, &id.bytes) {
                return Some(i);
            }
            i = i + 1;
        }
        None
    }

    /// Registers the implementers of a standard, replacing any earlier entry
    /// for it wholesale.
    pub fn set_implementors(
        &mut self,
        sender: Address,
        id: StandardIdentifier,
        implementers: Vec<ContractAddress>,
    ) -> (r: Result<(), ContractError>)
        requires
            old(self).wf(),
        ensures
            final(self).wf(),
            r == spec_set_implementors(old(self)@, sender, id@, implementers@).0,
            final(self)@ == spec_set_implementors(old(self)@, sender, id@, implementers@).1,
    {
        if let Err(e) = check_access(self.paused, self.admin, sender, true) {
            return Err(e);
        }
        match self.find_standard(&id) {
            Some(i) => {
                proof {
                    let entries = impl_entries(self.implementors@);
                    lemma_map_of_update(entries, i as int, implementers@);
                    assert(impl_entries(self.implementors@.update(i as int, (id, implementers)))
                        =~= entries.update(i as int, (entries[i as int].0, implementers@)));
                }
                self.implementors.set(i, (id, implementers));
            },
            None => {
                proof {
                    let entries = impl_entries(self.implementors@);
                    lemma_map_of_push(entries, id@, implementers@);
                    assert(impl_entries(self.implementors@.push((id, implementers)))
                        =~= entries.push((id@, implementers@)));
                }
                self.implementors.push((id, implementers));
            },
        }
        Ok(())
    }

    /// The answer to one discovery query.
    fn supports_one(&self, native: &Vec<StandardIdentifier>, id: &StandardIdentifier) -> (r:
        SupportResult)
        requires
            self.wf(),
        ensures
            support_matches(self@, native_ids(native@), id@, r),
    {
        if contains_id(native, id) {
            return SupportResult::Support;
        }
        proof {
            lemma_map_of_contains(impl_entries(self.implementors@), id@);
        }
        match self.find_standard(id) {
            Some(i) => {
                proof {
                    lemma_map_of_index(impl_entries(self.implementors@), i as int);
                }
                SupportResult::SupportBy(copy_list(&self.implementors[i].1))
            },
            None => SupportResult::NoSupport,
        }
    }

    /// Answers each queried identifier in order: `Support` for a natively
    /// supported identifier, else the registered implementer list, else
    /// `NoSupport`. Read-only and unguarded; never fails.
    pub fn supports(&self, native: &Vec<StandardIdentifier>, queries: &Vec<StandardIdentifier>)
        -> (r: Vec<SupportResult>)
        requires
            self.wf(),
        ensures
            r@.len() == queries@.len(),
            forall|i: int|
                0 <= i < queries@.len() ==> support_matches(
                    self@,
                    native_ids(native@),
                    queries@[i]@,
                    #[trigger] r@[i],
                ),
    {
        let mut r: Vec<SupportResult> = Vec::new();
        let mut i: usize = 0;
        while i < queries.len()
            invariant
                self.wf(),
                i <= queries@.len(),
                r@.len() == i,
                forall|j: int|
                    0 <= j < i ==> support_matches(
                        self@,
                        native_ids(native@),
                        queries@[j]@,
                        #[trigger] r@[j],
                    ),
            decreases queries@.len() - i,
        {
            r.push(self.supports_one(native, &queries[i]));
            i = i + 1;
        }
        r
    }
}

} // verus!
