//! The guarded cell: a single-writer, mutually-exclusive holder of one
//! hardware-backed resource, shared between the foreground and the
//! interrupt context.
//!
//! The cell starts empty; the foreground populates it exactly once with
//! [`GuardedCell::init`], before the owning interrupt source is unmasked.
//! Every later access, from either context, goes through
//! [`GuardedCell::with_mut`], which stands for a scope during which
//! interrupt delivery is suspended: accesses are therefore linearized, and
//! each one sees the complete value left by the previous access, never a
//! torn intermediate state. [`lemma_no_torn_values`] states that property
//! over the model of linearized access histories.

use vstd::prelude::*;

verus! {

/// Mutually-exclusive holder of one resource of type `T`.
///
/// On hardware the exclusion scope is a critical section that masks
/// interrupt delivery for its duration; the cell's contract captures what
/// such a scope guarantees to the code inside it: exclusive, complete
/// access to the current value.
pub struct GuardedCell<T> {
    value: Option<T>,
}

impl<T> View for GuardedCell<T> {
    type V = Option<T>;

    closed spec fn view(&self) -> Option<T> {
        self.value
    }
}

impl<T> GuardedCell<T> {
    /// A cell that does not yet hold its resource.
    pub fn new() -> (cell: Self)
        ensures
            cell@ is None,
    {
        GuardedCell { value: None }
    }

    /// Move the resource into the cell. Called exactly once by the
    /// foreground, before the owning interrupt source is unmasked;
    /// populating an already-populated cell is a programming error, so an
    /// occupied cell is excluded by precondition rather than silently
    /// overwritten.
    pub fn init(&mut self, value: T)
        requires
            old(self)@ is None,
        ensures
            final(self)@ == Some(value),
    {
        self.value = Some(value);
    }

    /// Whether the resource has been moved in yet.
    pub fn is_initialized(&self) -> (populated: bool)
        ensures
            populated == (self@ is Some),
    {
        self.value.is_some()
    }

    /// Exclusive access to the held resource.
    ///
    /// Acquires the mutual-exclusion scope, applies `f` to the complete
    /// current value, and stores the complete replacement back before the
    /// scope ends. If the cell is still empty — the interrupt could in
    /// principle run before `init` if the source were unmasked too early —
    /// nothing happens and the caller learns it structurally through
    /// `None`: "not yet ready, skip this pass", never a fault.
    pub fn with_mut<R, F: FnOnce(T) -> (T, R)>(&mut self, f: F) -> (result: Option<R>)
        requires
            forall|t: T| old(self)@ == Some(t) ==> #[trigger] call_requires(f, (t,)),
        ensures
            old(self)@ is None ==> final(self)@ is None && result is None,
            old(self)@ matches Some(t) ==> (exists|out: (T, R)|
                #[trigger] call_ensures(f, (t,), out)
                && final(self)@ == Some(out.0)
                && result == Some(out.1)),
    {
        match self.value.take() {
            None => None,
            Some(t) => {
                let (replacement, report) = f(t);
                self.value = Some(replacement);
                Some(report)
            },
        }
    }
}

/// One linearized access to a guarded cell, as the exclusion scope admits
/// them: an initial population, a complete replacement of the value from
/// inside `with_mut`, or an observation that changes nothing.
pub enum CellAccess<T> {
    /// The one-time population of the empty cell.
    Populate(T),
    /// A complete replacement performed under the exclusion scope.
    Replace(T),
    /// A read under the exclusion scope.
    Observe,
}

/// Whether this access writes exactly the value `v` into the cell.
pub open spec fn access_writes<T>(access: CellAccess<T>, v: T) -> bool {
    access == CellAccess::Populate(v) || access == CellAccess::Replace(v)
}

/// The contents of a cell that started empty, after a linearized history
/// of accesses. A population of an occupied cell and a replacement in an
/// empty cell leave the contents unchanged, as the exec operations do.
pub open spec fn contents_after<T>(history: Seq<CellAccess<T>>) -> Option<T>
    decreases history.len(),
{
    if history.len() == 0 {
        None
    } else {
        let prev = contents_after(history.drop_last());
        match history.last() {
            CellAccess::Populate(v) => if prev is None { Some(v) } else { prev },
            CellAccess::Replace(v) => if prev is Some { Some(v) } else { None },
            CellAccess::Observe => prev,
        }
    }
}

/// Mutual exclusion, stated over linearized access histories: whatever
/// value the cell holds after any history was written whole by a single
/// earlier access. No interleaving of foreground and interrupt accesses
/// can observe a mix of two writes, because every access runs to
/// completion inside the exclusion scope.
pub proof fn lemma_no_torn_values<T>(history: Seq<CellAccess<T>>, v: T)
    requires
        contents_after(history) == Some(v),
    ensures
        exists|j: int| 0 <= j < history.len() && access_writes(#[trigger] history[j], v),
    decreases history.len(),
{
    let prev = contents_after(history.drop_last());
    match history.last() {
        CellAccess::Populate(_) => {
            if prev is None {
                assert(access_writes(history[history.len() - 1], v));
            } else {
                lemma_no_torn_values(history.drop_last(), v);
                let j = choose|j: int|
                    0 <= j < history.drop_last().len()
                    && access_writes(#[trigger] history.drop_last()[j], v);
                assert(access_writes(history[j], v));
            }
        },
        CellAccess::Replace(_) => {
            assert(prev is Some);
            assert(access_writes(history[history.len() - 1], v));
        },
        CellAccess::Observe => {
            lemma_no_torn_values(history.drop_last(), v);
            let j = choose|j: int|
                0 <= j < history.drop_last().len()
                && access_writes(#[trigger] history.drop_last()[j], v);
            assert(access_writes(history[j], v));
        },
    }
}

} // verus!
