//! The record of native instances that are still to be destroyed.

use crate::native::{NativeCall, NativeCallView};
use vstd::prelude::*;
use vstd::string::*;

verus! {

/// One native instance that is owed its destruction: its handle, the place
/// of its library in the arena, and the symbol that destroys it.
#[derive(Debug, Clone)]
pub struct Deallocator {
    pub handle: usize,
    pub library: usize,
    pub symbol: String,
}

/// What a [`Deallocator`] holds.
pub ghost struct DeallocatorView {
    pub handle: usize,
    pub library: usize,
    pub symbol: Seq<char>,
}

impl View for Deallocator {
    type V = DeallocatorView;

    open spec fn view(&self) -> DeallocatorView {
        DeallocatorView { handle: self.handle, library: self.library, symbol: self.symbol@ }
    }
}

impl DeepView for Deallocator {
    type V = DeallocatorView;

    open spec fn deep_view(&self) -> DeallocatorView {
        self@
    }
}

impl DeallocatorView {
    /// The call that destroys the instance.
    pub open spec fn call(self) -> NativeCallView {
        NativeCallView::Destroy { symbol: self.symbol, handle: self.handle }
    }
}

/// The place of the first entry for the instance `handle` of the library
/// `library`, or `entries.len()` if there is none.
pub open spec fn first_entry(entries: Seq<DeallocatorView>, library: usize, handle: usize) -> int
    decreases entries.len(),
{
    if entries.len() == 0 {
        0
    } else if entries[0].handle == handle && entries[0].library == library {
        0
    } else {
        1 + first_entry(entries.drop_first(), library, handle)
    }
}

/// How many entries stand for the instance `handle` of the library
/// `library`.
pub open spec fn owed(entries: Seq<DeallocatorView>, library: usize, handle: usize) -> nat
    decreases entries.len(),
{
    if entries.len() == 0 {
        0
    } else {
        owed(entries.drop_first(), library, handle) + if entries[0].handle == handle
            && entries[0].library == library {
            1nat
        } else {
            0nat
        }
    }
}

/// A call into the library at one place of the arena.
#[derive(Debug, Clone)]
pub struct PlacedCall {
    pub library: usize,
    pub call: NativeCall,
}

/// What a [`PlacedCall`] holds.
pub ghost struct PlacedCallView {
    pub library: usize,
    pub call: NativeCallView,
}

impl View for PlacedCall {
    type V = PlacedCallView;

    open spec fn view(&self) -> PlacedCallView {
        PlacedCallView { library: self.library, call: self.call@ }
    }
}

impl DeepView for PlacedCall {
    type V = PlacedCallView;

    open spec fn deep_view(&self) -> PlacedCallView {
        self@
    }
}

/// The destroying calls of `entries`, in order, each with the place of
/// the library in which it is to be made.
pub open spec fn destroy_calls(entries: Seq<DeallocatorView>) -> Seq<PlacedCallView> {
    Seq::new(
        entries.len(),
        |i: int| PlacedCallView { library: entries[i].library, call: entries[i].call() },
    )
}

/// The instances that are owed their destruction, oldest first.
pub struct DeallocationLedger {
    entries: Vec<Deallocator>,
}

impl View for DeallocationLedger {
    type V = Seq<DeallocatorView>;

    closed spec fn view(&self) -> Seq<DeallocatorView> {
        self.entries.deep_view()
    }
}

/// `first_entry` is the least place of an entry for the instance.
pub proof fn lemma_first_entry(entries: Seq<DeallocatorView>, library: usize, handle: usize)
    ensures
        0 <= first_entry(entries, library, handle) <= entries.len(),
        first_entry(entries, library, handle) < entries.len() ==> entries[first_entry(
            entries,
            library,
            handle,
        )].handle == handle && entries[first_entry(entries, library, handle)].library == library,
        forall|j: int|
            0 <= j < first_entry(entries, library, handle) ==> !((#[trigger] entries[j]).handle
                == handle && entries[j].library == library),
        first_entry(entries, library, handle) < entries.len() <==> owed(entries, library, handle)
            > 0,
    decreases entries.len(),
{
    if entries.len() > 0 && !(entries[0].handle == handle && entries[0].library == library) {
        lemma_first_entry(entries.drop_first(), library, handle);
        assert forall|j: int| 0 <= j < first_entry(entries, library, handle) implies !((
        #[trigger] entries[j]).handle == handle && entries[j].library == library) by {
            if j > 0 {
                assert(entries.drop_first()[j - 1] == entries[j]);
            }
        }
    }
}

/// Taking an entry out lowers what is owed to its instance by one, and
/// leaves what is owed to every other instance as it was.
pub proof fn lemma_owed_after_remove(
    entries: Seq<DeallocatorView>,
    at: int,
    library: usize,
    handle: usize,
)
    requires
        0 <= at < entries.len(),
    ensures
        owed(entries.remove(at), library, handle) + (if entries[at].handle == handle
            && entries[at].library == library {
            1nat
        } else {
            0nat
        }) == owed(entries, library, handle),
    decreases entries.len(),
{
    if at == 0 {
        assert(entries.remove(0) =~= entries.drop_first());
    } else {
        assert(entries.remove(at).drop_first() =~= entries.drop_first().remove(at - 1));
        assert(entries.remove(at)[0] == entries[0]);
        lemma_owed_after_remove(entries.drop_first(), at - 1, library, handle);
    }
}

/// Adding an entry at the end raises what is owed to its instance by one,
/// and leaves what is owed to every other instance as it was.
pub proof fn lemma_owed_after_push(
    entries: Seq<DeallocatorView>,
    entry: DeallocatorView,
    library: usize,
    handle: usize,
)
    ensures
        owed(entries.push(entry), library, handle) == owed(entries, library, handle) + (
        if entry.handle == handle && entry.library == library {
            1nat
        } else {
            0nat
        }),
    decreases entries.len(),
{
    if entries.len() == 0 {
        assert(entries.push(entry).drop_first() =~= entries);
    } else {
        assert(entries.push(entry).drop_first() =~= entries.drop_first().push(entry));
        lemma_owed_after_push(entries.drop_first(), entry, library, handle);
    }
}

impl DeallocationLedger {
    /// A ledger that owes nothing.
    pub fn new() -> (ledger: Self)
        ensures
            ledger@ == Seq::<DeallocatorView>::empty(),
    {
        let ledger = DeallocationLedger { entries: Vec::new() };
        assert(ledger@ =~= Seq::<DeallocatorView>::empty());
        ledger
    }

    /// How many instances are owed their destruction.
    pub fn len(&self) -> (n: usize)
        ensures
            n == self@.len(),
    {
        self.entries.len()
    }

    /// Records that the instance `handle` of the library at `library` is
    /// to be destroyed through `symbol`.
    pub fn record(&mut self, handle: usize, library: usize, symbol: String)
        ensures
            final(self)@ == old(self)@.push(DeallocatorView { handle, library, symbol: symbol@ }),
    {
        let ghost before = self.entries.deep_view();
        let entry = Deallocator { handle, library, symbol };
        let ghost added = entry@;
        self.entries.push(entry);
        assert(self.entries.deep_view() =~= before.push(added));
    }

    /// Takes the instance `handle` of the library at `library` off the
    /// ledger and hands back the call that destroys it. Where the ledger
    /// does not hold the instance, because it was never recorded or was
    /// taken off before, nothing changes and there is no call.
    pub fn release(&mut self, library: usize, handle: usize) -> (call: Option<NativeCall>)
        ensures
            ({
                let at = first_entry(old(self)@, library, handle);
                &&& at >= old(self)@.len() ==> call is None && final(self)@ == old(self)@
                &&& at < old(self)@.len() ==> call is Some && call->0@ == old(self)@[at].call()
                    && final(self)@ == old(self)@.remove(at)
            }),
    {
        let ghost entries = self.entries.deep_view();
        let mut i: usize = 0;
        assert(entries.skip(0) =~= entries);
        while i < self.entries.len()
            invariant
                i <= self.entries.len(),
                entries == self.entries.deep_view(),
                entries == old(self)@,
                first_entry(entries, library, handle) == i + first_entry(
                    entries.skip(i as int),
                    library,
                    handle,
                ),
            decreases self.entries.len() - i,
        {
            proof {
                assert(entries.skip(i as int)[0] == self.entries[i as int]@);
                assert(entries.skip(i as int).drop_first() =~= entries.skip(i + 1));
            }
            if self.entries[i].handle == handle && self.entries[i].library == library {
                assert(first_entry(entries.skip(i as int), library, handle) == 0);
                assert(entries[i as int] == self.entries[i as int]@);
                let entry = self.entries.remove(i);
                assert(self.entries.deep_view() =~= entries.remove(i as int));
                return Some(NativeCall::Destroy { symbol: entry.symbol, handle: entry.handle });
            }
            i = i + 1;
        }
        assert(entries.skip(self.entries.len() as int) =~= Seq::<DeallocatorView>::empty());
        None
    }

    /// Empties the ledger and hands back the calls that destroy every
    /// instance that was still on it, oldest first, each with the place
    /// of its library.
    pub fn drain(&mut self) -> (calls: Vec<PlacedCall>)
        ensures
            final(self)@ == Seq::<DeallocatorView>::empty(),
            calls.deep_view() == destroy_calls(old(self)@),
    {
        let ghost entries = self.entries.deep_view();
        let mut calls: Vec<PlacedCall> = Vec::new();
        let mut i: usize = 0;
        while i < self.entries.len()
            invariant
                i <= self.entries.len(),
                entries == self.entries.deep_view(),
                calls.deep_view() =~= destroy_calls(entries).take(i as int),
            decreases self.entries.len() - i,
        {
            assert(entries[i as int] == self.entries[i as int]@);
            let call = PlacedCall {
                library: self.entries[i].library,
                call: NativeCall::Destroy {
                    symbol: self.entries[i].symbol.clone(),
                    handle: self.entries[i].handle,
                },
            };
            let ghost before = calls.deep_view();
            let ghost added = call@;
            calls.push(call);
            assert(calls.deep_view() =~= before.push(added));
            i = i + 1;
        }
        assert(destroy_calls(entries).take(self.entries.len() as int) =~= destroy_calls(entries));
        self.entries = Vec::new();
        assert(self.entries.deep_view() =~= Seq::<DeallocatorView>::empty());
        calls
    }
}

/// An instance that was recorded once is destroyed once: by its release or
/// else by the draining of the ledger, never by both. A second release
/// finds nothing.
pub proof fn lemma_destroyed_once(
    entries: Seq<DeallocatorView>,
    library: usize,
    handle: usize,
    symbol: Seq<char>,
)
    requires
        owed(entries, library, handle) == 0,
    ensures
        ({
            let recorded = entries.push(DeallocatorView { handle, library, symbol });
            let at = first_entry(recorded, library, handle);
            &&& owed(recorded, library, handle) == 1
            &&& at == entries.len()
            &&& recorded.remove(at) == entries
            &&& first_entry(recorded.remove(at), library, handle) >= recorded.remove(at).len()
        }),
{
    let entry = DeallocatorView { handle, library, symbol };
    let recorded = entries.push(entry);
    lemma_owed_after_push(entries, entry, library, handle);
    lemma_first_entry(recorded, library, handle);
    lemma_first_entry(entries, library, handle);
    let at = first_entry(recorded, library, handle);
    if at < entries.len() {
        assert(recorded[at] == entries[at]);
    }
    assert(recorded.remove(at) =~= entries);
}

} // verus!
