//! The central record table: every declared hook under a stable
//! identifier, each entry owning its slot.
//!
//! Slots are never reached as bare storage; every read and write goes
//! through the accessors here, which keep one entry per identifier. The
//! lookup model is [`spec_find`]: the address stored under the first —
//! and, by the table's invariant, only — entry with the given name.

use vstd::prelude::*;

use crate::bytes::{bytes_eq, clone_bytes};
use crate::errors::{InstallError, OriginalCallError};
use crate::slot::{HookSlot, InstallAnswer, Invocation, NULL_ORIGINAL};

verus! {

/// One declared hook: its stable identifier and its slot.
pub struct HookRecord {
    pub name: Vec<u8>,
    pub slot: HookSlot,
}

/// The slot value stored under the first entry of `es` named `name`.
pub open spec fn spec_find(es: Seq<HookRecord>, name: Seq<u8>) -> Option<u64>
    decreases es,
{
    if es.len() == 0 {
        None
    } else if es[0].name@ == name {
        Some(es[0].slot@)
    } else {
        spec_find(es.drop_first(), name)
    }
}

/// `spec_find` misses exactly when no entry carries the name.
pub proof fn lemma_find_none(es: Seq<HookRecord>, name: Seq<u8>)
    ensures
        (spec_find(es, name) is None) <==> (forall|i: int|
            0 <= i < es.len() ==> #[trigger] es[i].name@ != name),
    decreases es,
{
    if es.len() != 0 {
        lemma_find_none(es.drop_first(), name);
        assert(forall|i: int|
            1 <= i < es.len() ==> #[trigger] es[i].name@ == es.drop_first()[i - 1].name@);
    }
}

/// The table of every declared hook.
pub struct HookRecords {
    entries: Vec<HookRecord>,
}

impl HookRecords {
    /// Well-formedness: one entry per identifier.
    pub closed spec fn wf(&self) -> bool {
        forall|i: int, j: int|
            0 <= i < j < self.entries@.len() ==> self.entries@[i].name@ != self.entries@[j].name@
    }

    /// The address stored for a hook, if the hook is declared.
    pub closed spec fn lookup(&self, name: Seq<u8>) -> Option<u64> {
        spec_find(self.entries@, name)
    }

    /// Whether a hook is declared.
    pub open spec fn is_declared(&self, name: Seq<u8>) -> bool {
        self.lookup(name) is Some
    }

    /// An empty table: nothing is declared.
    pub fn new() -> (r: Self)
        ensures
            r.wf(),
            forall|n: Seq<u8>| !(#[trigger] r.is_declared(n)),
    {
        let r = HookRecords { entries: Vec::new() };
        proof {
            assert(forall|n: Seq<u8>| #[trigger] spec_find(r.entries@, n) is None);
        }
        r
    }

    /// Runtime check of [`HookRecords::is_declared`].
    pub fn contains(&self, name: &Vec<u8>) -> (r: bool)
        ensures
            r == self.is_declared(name@),
    {
        let mut i: usize = 0;
        proof {
            assert(self.entries@.skip(0int) =~= self.entries@);
        }
        while i < self.entries.len()
            invariant
                i <= self.entries@.len(),
                spec_find(self.entries@, name@) == spec_find(
                    self.entries@.skip(i as int),
                    name@,
                ),
            decreases self.entries@.len() - i,
        {
            proof {
                assert(self.entries@.skip(i as int)[0] == self.entries@[i as int]);
                assert(self.entries@.skip(i as int).drop_first() =~= self.entries@.skip(
                    i as int + 1,
                ));
            }
            if bytes_eq(&self.entries[i].name, name) {
                return true;
            }
            i = i + 1;
        }
        proof {
            assert(self.entries@.skip(self.entries@.len() as int) =~= Seq::<HookRecord>::empty());
        }
        false
    }

    /// Declare a hook: a fresh entry in the null state, leaving every
    /// other hook untouched. A name already declared is refused, so
    /// declarations never shadow one another.
    pub fn declare(&mut self, name: Vec<u8>) -> (r: Result<(), OriginalCallError>)
        requires
            old(self).wf(),
        ensures
            final(self).wf(),
            old(self).is_declared(name@) ==> (r is Err && *final(self) == *old(self)),
            !old(self).is_declared(name@) ==> {
                &&& r is Ok
                &&& final(self).lookup(name@) == Some(NULL_ORIGINAL)
                &&& forall|n: Seq<u8>|
                    n != name@ ==> #[trigger] final(self).lookup(n) == old(self).lookup(n)
            },
    {
        if self.contains(&name) {
            return Err(OriginalCallError::NotInMemory { hook: name });
        }
        let ghost before = self.entries@;
        let record = HookRecord { name, slot: HookSlot::new() };
        let ghost namev = record.name@;
        self.entries.push(record);
        proof {
            lemma_find_none(before, namev);
            lemma_find_snoc(before, self.entries@[before.len() as int], namev);
            assert forall|n: Seq<u8>| n != namev implies #[trigger] spec_find(
                self.entries@,
                n,
            ) == spec_find(before, n) by {
                lemma_find_snoc(before, self.entries@[before.len() as int], n);
            }
        }
        Ok(())
    }

    /// Record the registry's answer for a declared hook: on a performed
    /// redirection the hook's entry takes exactly the returned address;
    /// an unresolved target, or a name never declared, changes nothing
    /// and is propagated as a failure. No other hook is touched.
    pub fn install(&mut self, name: &Vec<u8>, answer: InstallAnswer) -> (r: Result<
        (),
        InstallError,
    >)
        requires
            old(self).wf(),
        ensures
            final(self).wf(),
            !old(self).is_declared(name@) ==> (r == Err::<(), InstallError>(
                InstallError::TargetUnresolved,
            ) && *final(self) == *old(self)),
            answer matches InstallAnswer::Replaced(orig) ==> (old(self).is_declared(name@) ==> {
                &&& r is Ok
                &&& final(self).lookup(name@) == Some(orig)
                &&& forall|n: Seq<u8>|
                    n != name@ ==> #[trigger] final(self).lookup(n) == old(self).lookup(n)
            }),
            (old(self).is_declared(name@) && answer is Unresolved) ==> (r == Err::<
                (),
                InstallError,
            >(InstallError::TargetUnresolved) && *final(self) == *old(self)),
    {
        let orig = match answer {
            InstallAnswer::Replaced(orig) => orig,
            InstallAnswer::Unresolved => {
                return Err(InstallError::TargetUnresolved);
            },
        };
        let ghost before = self.entries@;
        let mut i: usize = 0;
        while i < self.entries.len()
            invariant
                i <= self.entries@.len(),
                *self == *old(self),
                self.entries@ == before,
                before == old(self).entries@,
                old(self).wf(),
                answer == InstallAnswer::Replaced(orig),
                forall|j: int| 0 <= j < i ==> #[trigger] before[j].name@ != name@,
            decreases self.entries@.len() - i,
        {
            if bytes_eq(&self.entries[i].name, name) {
                let fresh_name = clone_bytes(&self.entries[i].name);
                let mut slot = HookSlot::new();
                let installed = slot.install(InstallAnswer::Replaced(orig));
                proof {
                    assert(installed is Ok);
                }
                self.entries.set(i, HookRecord { name: fresh_name, slot });
                proof {
                    assert(before == old(self).entries@);
                    lemma_find_none(before, name@);
                    assert(spec_find(before, name@) is Some);
                    assert(old(self).is_declared(name@));
                    assert(forall|p: int, q: int|
                        0 <= p < q < before.len() ==> before[p].name@ != before[q].name@) by {
                        assert(old(self).wf());
                    }
                    assert(forall|j: int|
                        0 <= j < before.len() && j != i ==> self.entries@[j] == before[j]);
                    lemma_find_first_update(before, self.entries@, i as int, name@);
                    lemma_wf_update(before, self.entries@, i as int);
                }
                return Ok(());
            }
            i = i + 1;
        }
        proof {
            assert(before == old(self).entries@);
            lemma_find_none(before, name@);
        }
        Err(InstallError::TargetUnresolved)
    }

    /// The trampoline, by hook identifier. A hook never declared, or
    /// one whose slot still holds the null sentinel, fails loudly with
    /// the hook's name; otherwise the preserved routine's callable view
    /// is reconstructed with the given argument words. Never mutates.
    pub fn call_original(&self, name: &Vec<u8>, args: Vec<u64>) -> (r: Result<
        Invocation,
        OriginalCallError,
    >)
        ensures
            (match self.lookup(name@) {
                Some(addr) => addr != NULL_ORIGINAL,
                None => false,
            }) ==> (r matches Ok(inv) && Some(inv.routine) == self.lookup(name@) && inv.args@
                == args@),
            (match self.lookup(name@) {
                Some(addr) => addr == NULL_ORIGINAL,
                None => true,
            }) ==> (r matches Err(OriginalCallError::NotInMemory { hook }) && hook@ == name@),
    {
        let ghost before = self.entries@;
        let mut i: usize = 0;
        proof {
            assert(self.entries@.skip(0int) =~= self.entries@);
        }
        while i < self.entries.len()
            invariant
                i <= self.entries@.len(),
                spec_find(self.entries@, name@) == spec_find(
                    self.entries@.skip(i as int),
                    name@,
                ),
            decreases self.entries@.len() - i,
        {
            proof {
                assert(self.entries@.skip(i as int)[0] == self.entries@[i as int]);
                assert(self.entries@.skip(i as int).drop_first() =~= self.entries@.skip(
                    i as int + 1,
                ));
            }
            if bytes_eq(&self.entries[i].name, name) {
                return self.entries[i].slot.call_original(name, args);
            }
            i = i + 1;
        }
        proof {
            assert(self.entries@.skip(self.entries@.len() as int) =~= Seq::<HookRecord>::empty());
        }
        Err(OriginalCallError::NotInMemory { hook: clone_bytes(name) })
    }
}

/// Appending an entry changes only lookups of its own name, and those
/// only when the name was absent.
pub proof fn lemma_find_snoc(es: Seq<HookRecord>, e: HookRecord, name: Seq<u8>)
    ensures
        spec_find(es.push(e), name) == (if spec_find(es, name) is Some {
            spec_find(es, name)
        } else if e.name@ == name {
            Some(e.slot@)
        } else {
            None
        }),
    decreases es,
{
    if es.len() == 0 {
        assert(es.push(e).drop_first() =~= Seq::<HookRecord>::empty());
    } else {
        assert(es.push(e).drop_first() =~= es.drop_first().push(e));
        lemma_find_snoc(es.drop_first(), e, name);
    }
}

/// Updating the first entry carrying `name` moves the lookup of `name`
/// to the new slot and leaves every other lookup alone.
pub proof fn lemma_find_first_update(
    before: Seq<HookRecord>,
    after: Seq<HookRecord>,
    i: int,
    name: Seq<u8>,
)
    requires
        0 <= i < before.len(),
        after.len() == before.len(),
        forall|j: int| 0 <= j < before.len() && j != i ==> after[j] == before[j],
        before[i].name@ == name,
        after[i].name@ == name,
        forall|j: int| 0 <= j < i ==> #[trigger] before[j].name@ != name,
    ensures
        spec_find(after, name) == Some(after[i].slot@),
        forall|n: Seq<u8>| n != name ==> #[trigger] spec_find(after, n) == spec_find(before, n),
    decreases i,
{
    if i == 0 {
        assert(spec_find(after, name) == Some(after[0].slot@));
        assert forall|n: Seq<u8>| n != name implies #[trigger] spec_find(after, n) == spec_find(
            before,
            n,
        ) by {
            assert(after.drop_first() =~= before.drop_first());
            assert(spec_find(after, n) == spec_find(after.drop_first(), n));
            assert(spec_find(before, n) == spec_find(before.drop_first(), n));
        }
    } else {
        let b2 = before.drop_first();
        let a2 = after.drop_first();
        assert(forall|j: int| 0 <= j < b2.len() && j != i - 1 ==> a2[j] == after[j + 1]
            && before[j + 1] == b2[j]);
        assert(b2[i - 1] == before[i] && a2[i - 1] == after[i]);
        assert(forall|j: int| 0 <= j < i - 1 ==> #[trigger] b2[j].name@ == before[j + 1].name@);
        lemma_find_first_update(b2, a2, i - 1, name);
        assert(after[0] == before[0]);
        assert(before[0].name@ != name);
        assert(spec_find(after, name) == spec_find(a2, name));
        assert forall|n: Seq<u8>| n != name implies #[trigger] spec_find(after, n) == spec_find(
            before,
            n,
        ) by {
            if after[0].name@ == n {
            } else {
                assert(spec_find(after, n) == spec_find(a2, n));
                assert(spec_find(before, n) == spec_find(b2, n));
            }
        }
    }
}

/// Replacing an entry with one of the same name keeps the table's
/// entries pairwise distinct.
pub proof fn lemma_wf_update(before: Seq<HookRecord>, after: Seq<HookRecord>, i: int)
    requires
        0 <= i < before.len(),
        after == before.update(i, after[i]),
        after[i].name@ == before[i].name@,
        forall|p: int, q: int|
            0 <= p < q < before.len() ==> before[p].name@ != before[q].name@,
    ensures
        forall|p: int, q: int| 0 <= p < q < after.len() ==> after[p].name@ != after[q].name@,
{
    assert forall|p: int, q: int| 0 <= p < q < after.len() implies after[p].name@
        != after[q].name@ by {
        assert(after[p].name@ == before[p].name@);
        assert(after[q].name@ == before[q].name@);
    }
}

} // verus!
