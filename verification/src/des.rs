//! The position of a reader that walks a Python sequence, the entries of a
//! dict, or the attributes of a tuple-struct class, front to back.

use vstd::prelude::*;
use crate::text::{tuple_field_name, tuple_field_name_spec};

verus! {

/// Index of the next item that a reader takes.
pub struct IndexCursor {
    pos: usize,
}

impl View for IndexCursor {
    type V = nat;

    closed spec fn view(&self) -> nat {
        self.pos as nat
    }
}

impl IndexCursor {
    /// A reader at the first item.
    pub fn new() -> (r: Self)
        ensures
            r@ == 0,
    {
        IndexCursor { pos: 0 }
    }

    /// The index of the next item.
    pub fn position(&self) -> (r: usize)
        ensures
            r == self@,
    {
        self.pos
    }

    /// The index of the next item where one is left among `len` items, or
    /// `None` where the reader is at the end.
    pub fn current(&self, len: usize) -> (r: Option<usize>)
        ensures
            r matches Some(i) ==> read_at(self@, len as nat) == Some(i as nat),
            r is None ==> read_at(self@, len as nat) is None,
    {
        if self.pos < len {
            Some(self.pos)
        } else {
            None
        }
    }

    /// The name of the attribute that holds the next field of a tuple struct of
    /// `len` fields (the name that the serializer gave it), or `None` where the
    /// reader is at the end.
    pub fn current_attribute(&self, len: usize) -> (r: Option<String>)
        ensures
            match r {
                Some(name) => self@ < len && name@ == tuple_field_name_spec(self@),
                None => self@ >= len,
            },
    {
        if self.pos < len {
            Some(tuple_field_name(self.pos))
        } else {
            None
        }
    }

    /// Moves on to the next item.
    pub fn advance(&mut self)
        requires
            old(self)@ < usize::MAX,
        ensures
            final(self)@ == old(self)@ + 1,
    {
        self.pos = self.pos + 1;
    }
}


/// The index that a reader at `pos` reads among `len` items, or `None` at the
/// end.
pub open spec fn read_at(pos: nat, len: nat) -> Option<nat> {
    if pos < len {
        Some(pos)
    } else {
        None
    }
}

/// The position of a reader after `k` items were read from the start, each
/// followed by a step on.
pub open spec fn position_after(k: nat) -> nat
    decreases k,
{
    if k == 0 {
        0
    } else {
        position_after((k - 1) as nat) + 1
    }
}

/// Walking `len` items from the start, reading one and stepping on each time,
/// reads the indices 0, 1, ..., len - 1 in order, each once, and then reads
/// nothing more.
pub proof fn lemma_items_read_in_order(len: nat)
    ensures
        forall|k: nat| k < len ==> #[trigger] read_at(position_after(k), len) == Some(k),
        read_at(position_after(len), len) is None,
{
    assert forall|k: nat| k < len implies #[trigger] read_at(position_after(k), len) == Some(k) by {
        lemma_position_after(k);
    }
    lemma_position_after(len);
}

proof fn lemma_position_after(k: nat)
    ensures
        position_after(k) == k,
    decreases k,
{
    if k > 0 {
        lemma_position_after((k - 1) as nat);
    }
}

/// Where a reader of dict entries stands: the index of the entry it is on,
/// and whether it has read that entry's key and waits to read its value.
#[verifier::ext_equal]
pub struct EntryState {
    pub entry: nat,
    pub key_read: bool,
}

impl EntryState {
    /// The entry that a key step moves to: the next one where a key is
    /// waiting (its value is then not read), else the current one.
    pub open spec fn key_entry(self) -> nat {
        if self.key_read {
            self.entry + 1
        } else {
            self.entry
        }
    }

    /// The index of the entry whose key a key step reads among `len` entries,
    /// or `None` where no entry is left.
    pub open spec fn key_index(self, len: nat) -> Option<nat> {
        if self.key_entry() < len {
            Some(self.key_entry())
        } else {
            None
        }
    }

    /// After a key step among `len` entries: on the entry of the key read,
    /// waiting for its value; or past the end with no key waiting.
    pub open spec fn after_key(self, len: nat) -> EntryState {
        EntryState { entry: self.key_entry(), key_read: self.key_entry() < len }
    }

    /// The index of the entry whose value a value step reads: the entry of the
    /// key just read, or `None` where no key was read.
    pub open spec fn value_index(self) -> Option<nat> {
        if self.key_read {
            Some(self.entry)
        } else {
            None
        }
    }

    /// After a value step: on to the next entry.
    pub open spec fn after_value(self) -> EntryState {
        if self.key_read {
            EntryState { entry: self.entry + 1, key_read: false }
        } else {
            self
        }
    }
}

/// A reader of the entries of a dict: each key step reads the key of the
/// current entry, and the value step after it reads the value of that same
/// entry and moves on.
pub struct EntryCursor {
    entry: usize,
    key_read: bool,
}

impl View for EntryCursor {
    type V = EntryState;

    closed spec fn view(&self) -> EntryState {
        EntryState { entry: self.entry as nat, key_read: self.key_read }
    }
}

impl EntryCursor {
    #[verifier::type_invariant]
    spec fn wf(self) -> bool {
        self.key_read ==> self.entry < usize::MAX
    }

    /// A reader at the first entry, with no key read.
    pub fn new() -> (r: Self)
        ensures
            r@ == (EntryState { entry: 0, key_read: false }),
    {
        EntryCursor { entry: 0, key_read: false }
    }

    /// Key step among `len` entries: the index of the entry whose key is read
    /// (the entry after the current one where a key is already waiting), or
    /// `None` where no entry is left.
    pub fn next_key(&mut self, len: usize) -> (r: Option<usize>)
        ensures
            r matches Some(i) ==> old(self)@.key_index(len as nat) == Some(i as nat),
            r is None ==> old(self)@.key_index(len as nat) is None,
            final(self)@ == old(self)@.after_key(len as nat),
    {
        proof {
            use_type_invariant(&*self);
        }
        let e = if self.key_read {
            self.entry + 1
        } else {
            self.entry
        };
        if e < len {
            *self = EntryCursor { entry: e, key_read: true };
            Some(e)
        } else {
            *self = EntryCursor { entry: e, key_read: false };
            None
        }
    }

    /// Value step: the index of the entry whose value is read, the entry of
    /// the key just read, or `None` where no key was read.
    pub fn next_value(&mut self) -> (r: Option<usize>)
        ensures
            r matches Some(i) ==> old(self)@.value_index() == Some(i as nat),
            r is None ==> old(self)@.value_index() is None,
            final(self)@ == old(self)@.after_value(),
    {
        proof {
            use_type_invariant(&*self);
        }
        if self.key_read {
            let i = self.entry;
            *self = EntryCursor { entry: i + 1, key_read: false };
            Some(i)
        } else {
            None
        }
    }
}

/// The value step after a key step reads the value of the entry whose key
/// was read, and then the reader stands on the next entry with no key read.
pub proof fn lemma_value_from_entry_of_key(s: EntryState, len: nat)
    requires
        s.key_index(len) is Some,
    ensures
        s.after_key(len).value_index() == s.key_index(len),
        s.after_key(len).after_value() == (EntryState {
            entry: s.key_index(len).unwrap() + 1,
            key_read: false,
        }),
{
}

/// A key step taken while a key waits moves on to the next entry, or gives
/// `None` after the last one.
pub proof fn lemma_repeated_key_moves_on(s: EntryState, len: nat, i: nat)
    requires
        s.key_index(len) == Some(i),
    ensures
        s.after_key(len).key_index(len) == (if i + 1 < len {
            Some(i + 1)
        } else {
            None::<nat>
        }),
{
}

/// Once a key step gives `None`, every further key step gives `None` and
/// leaves the reader where it is, and no value is read.
pub proof fn lemma_key_at_end_stays(s: EntryState, len: nat)
    requires
        s.key_index(len) is None,
    ensures
        s.after_key(len).key_index(len) is None,
        s.after_key(len).after_key(len) == s.after_key(len),
        s.after_key(len).value_index() is None,
{
}

/// Reading the key and then the value of every entry, from the start, visits
/// the entries in order: after `n` entries (up to `len`) the reader stands on
/// entry `n` with no key read.
pub proof fn lemma_entries_read_in_order(n: nat, len: nat)
    requires
        n <= len,
    ensures
        entries_after(n, len) == (EntryState { entry: n, key_read: false }),
    decreases n,
{
    if n > 0 {
        lemma_entries_read_in_order((n - 1) as nat, len);
    }
}

/// Reading a dict of `len` entries from the start gives a key for every entry:
/// after `n` key-and-value steps with `n < len`, the key step reads entry `n`
/// and the value step after it reads the value of entry `n`; only once all
/// `len` entries are read does the key step give `None`.
pub proof fn lemma_every_entry_read(len: nat)
    ensures
        forall|n: nat|
            n < len ==> #[trigger] entries_after(n, len).key_index(len) == Some(n)
                && entries_after(n, len).after_key(len).value_index() == Some(n),
        entries_after(len, len).key_index(len) is None,
{
    assert forall|n: nat|
        n < len implies #[trigger] entries_after(n, len).key_index(len) == Some(n)
        && entries_after(n, len).after_key(len).value_index() == Some(n) by {
        lemma_entries_read_in_order(n, len);
    }
    lemma_entries_read_in_order(len, len);
}

/// The reader after `n` key-and-value steps among `len` entries, from the
/// start.
pub open spec fn entries_after(n: nat, len: nat) -> EntryState
    decreases n,
{
    if n == 0 {
        EntryState { entry: 0, key_read: false }
    } else {
        entries_after((n - 1) as nat, len).after_key(len).after_value()
    }
}

} // verus!
