//! Keys, values, store commands, and the model of the store as a map.

use vstd::prelude::*;

verus! {

/// A key: a byte string, ordered byte-lexicographically.
pub type Key = Vec<u8>;

/// A value: an opaque byte string.
pub type Val = Vec<u8>;

/// A key together with its value.
pub struct Kv {
    pub key: Key,
    pub val: Val,
}

/// The contents of the store: each present key mapped to its value.
pub type StoreModel = Map<Seq<u8>, Seq<u8>>;

/// A command for the underlying store, as the engine hands it to the caller.
#[derive(Debug, Clone)]
pub enum Write {
    /// Store the value under the key, replacing any earlier value.
    Put(Key, Val),
    /// Remove the key; removing an absent key changes nothing.
    Delete(Key),
}

/// A store command as a key and the value it leaves there (`None`: removed).
pub type WriteView = (Seq<u8>, Option<Seq<u8>>);

impl View for Write {
    type V = WriteView;

    open spec fn view(&self) -> WriteView {
        match self {
            Write::Put(k, v) => (k@, Some(v@)),
            Write::Delete(k) => (k@, None),
        }
    }
}

/// The store after one command.
pub open spec fn apply_write(m: StoreModel, w: WriteView) -> StoreModel {
    match w.1 {
        Some(v) => m.insert(w.0, v),
        None => m.remove(w.0),
    }
}

/// The store after a sequence of commands, run first to last.
pub open spec fn apply_writes(m: StoreModel, ws: Seq<WriteView>) -> StoreModel
    decreases ws.len(),
{
    if ws.len() == 0 {
        m
    } else {
        apply_writes(apply_write(m, ws[0]), ws.drop_first())
    }
}

/// The value the store holds under `k`, if any.
pub open spec fn lookup(m: StoreModel, k: Seq<u8>) -> Option<Seq<u8>> {
    if m.dom().contains(k) {
        Some(m[k])
    } else {
        None
    }
}

/// The view of an optional byte string.
pub open spec fn opt_view(o: Option<Vec<u8>>) -> Option<Seq<u8>> {
    match o {
        Some(v) => Some(v@),
        None => None,
    }
}

/// Byte-lexicographic strict order on keys.
pub open spec fn lex_lt(a: Seq<u8>, b: Seq<u8>) -> bool
    decreases a.len(),
{
    if a.len() == 0 {
        b.len() > 0
    } else if b.len() == 0 {
        false
    } else if a[0] != b[0] {
        a[0] < b[0]
    } else {
        lex_lt(a.drop_first(), b.drop_first())
    }
}

proof fn lemma_lex_lt_step(a: Seq<u8>, b: Seq<u8>, i: int)
    requires
        0 <= i < a.len(),
        i < b.len(),
        a[i] == b[i],
    ensures
        lex_lt(a.skip(i), b.skip(i)) == lex_lt(a.skip(i + 1), b.skip(i + 1)),
{
    assert(a.skip(i).drop_first() =~= a.skip(i + 1));
    assert(b.skip(i).drop_first() =~= b.skip(i + 1));
}

/// Whether `a` comes strictly before `b` in byte-lexicographic order.
pub fn key_lt(a: &Key, b: &Key) -> (r: bool)
    ensures
        r == lex_lt(a@, b@),
{
    let mut i: usize = 0;
    proof {
        assert(a@.skip(0) =~= a@);
        assert(b@.skip(0) =~= b@);
    }
    while i < a.len() && i < b.len()
        invariant
            i <= a@.len(),
            i <= b@.len(),
            lex_lt(a@, b@) == lex_lt(a@.skip(i as int), b@.skip(i as int)),
        decreases a@.len() - i,
    {
        if a[i] != b[i] {
            return a[i] < b[i];
        }
        proof {
            lemma_lex_lt_step(a@, b@, i as int);
        }
        i = i + 1;
    }
    i < b.len()
}

/// Whether two byte strings are equal.
pub fn bytes_eq(a: &Vec<u8>, b: &Vec<u8>) -> (r: bool)
    ensures
        r == (a@ == b@),
{
    if a.len() != b.len() {
        return false;
    }
    let mut i: usize = 0;
    while i < a.len()
        invariant
            a@.len() == b@.len(),
            i <= a@.len(),
            forall|j: int| 0 <= j < i ==> a@[j] == b@[j],
        decreases a@.len() - i,
    {
        if a[i] != b[i] {
            return false;
        }
        i = i + 1;
    }
    assert(a@ =~= b@);
    true
}

/// Whether two optional values are both absent, or both present and equal.
pub fn same_value(a: &Option<Val>, b: &Option<Val>) -> (r: bool)
    ensures
        r == (opt_view(*a) == opt_view(*b)),
{
    match (a, b) {
        (Some(x), Some(y)) => bytes_eq(x, y),
        (None, None) => true,
        _ => false,
    }
}

} // verus!
