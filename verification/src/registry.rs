//! The names registry: public key to display name.
//!
//! Dispatch tasks upsert into it on receipt of a name announcement; all
//! topics read it to resolve sender names. The registry is an association
//! list with unique keys; its contracts speak through [`lookup_name`].

use vstd::prelude::*;
use vstd::string::StringExecFns;

verus! {

/// One registered display name.
pub struct NameEntry {
    pub key: Vec<u8>,
    pub name: String,
}

#[verifier::ext_equal]
pub ghost struct NameEntryView {
    pub key: Seq<u8>,
    pub name: Seq<char>,
}

impl View for NameEntry {
    type V = NameEntryView;

    open spec fn view(&self) -> NameEntryView {
        NameEntryView { key: self.key@, name: self.name@ }
    }
}

pub open spec fn names_view(l: Seq<NameEntry>) -> Seq<NameEntryView> {
    l.map_values(|e: NameEntry| e@)
}

/// The display name registered for a key, front to back.
pub open spec fn lookup_name(l: Seq<NameEntryView>, k: Seq<u8>) -> Option<Seq<char>>
    decreases l.len(),
{
    if l.len() == 0 {
        None
    } else if l[0].key == k {
        Some(l[0].name)
    } else {
        lookup_name(l.drop_first(), k)
    }
}

/// No key occurs twice.
pub open spec fn names_unique(l: Seq<NameEntryView>) -> bool {
    forall|i: int, j: int| 0 <= i < j < l.len() ==> l[i].key != l[j].key
}

/// Replacing the entry whose key matches changes only that key's binding.
proof fn lemma_lookup_update(l: Seq<NameEntryView>, j: int, e: NameEntryView, k: Seq<u8>)
    requires
        0 <= j < l.len(),
        l[j].key == e.key,
        forall|i: int| 0 <= i < j ==> l[i].key != e.key,
    ensures
        lookup_name(l.update(j, e), k) == if k == e.key {
            Some(e.name)
        } else {
            lookup_name(l, k)
        },
    decreases j,
{
    let lu = l.update(j, e);
    if j == 0 {
        assert(lu[0] == e);
        assert(lu.drop_first() =~= l.drop_first());
    } else {
        assert(lu[0] == l[0]);
        assert(l[0].key != e.key);
        assert(lu.drop_first() =~= l.drop_first().update(j - 1, e));
        lemma_lookup_update(l.drop_first(), j - 1, e, k);
    }
}

/// Appending an entry with a fresh key changes only that key's binding.
proof fn lemma_lookup_push(l: Seq<NameEntryView>, e: NameEntryView, k: Seq<u8>)
    requires
        forall|i: int| 0 <= i < l.len() ==> (#[trigger] l[i]).key != e.key,
    ensures
        lookup_name(l.push(e), k) == if k == e.key {
            Some(e.name)
        } else {
            lookup_name(l, k)
        },
    decreases l.len(),
{
    let lp = l.push(e);
    if l.len() == 0 {
        assert(lp[0] == e);
        assert(lp.drop_first() =~= Seq::<NameEntryView>::empty());
        assert(lookup_name(Seq::<NameEntryView>::empty(), k) is None);
        assert(lookup_name(l, k) is None);
    } else {
        assert(lp[0] == l[0]);
        assert(l[0].key != e.key);
        assert(lp.drop_first() =~= l.drop_first().push(e));
        lemma_lookup_push(l.drop_first(), e, k);
    }
}

/// The registry itself.
pub struct NamesRegistry {
    entries: Vec<NameEntry>,
}

impl NamesRegistry {
    pub closed spec fn entries_view(&self) -> Seq<NameEntryView> {
        names_view(self.entries@)
    }

    /// The binding for a key.
    pub open spec fn lookup(&self, k: Seq<u8>) -> Option<Seq<char>> {
        lookup_name(self.entries_view(), k)
    }

    pub closed spec fn wf(&self) -> bool {
        names_unique(self.entries_view())
    }

    pub fn new() -> (r: NamesRegistry)
        ensures
            r.wf(),
            forall|k: Seq<u8>| r.lookup(k) is None,
    {
        NamesRegistry { entries: Vec::new() }
    }

    /// Resolve a key to its registered display name.
    pub fn get(&self, k: &Vec<u8>) -> (r: Option<&String>)
        ensures
            match r {
                Some(s) => self.lookup(k@) == Some(s@),
                None => self.lookup(k@) is None,
            },
    {
        let ghost full = self.entries_view();
        assert(full.skip(0) =~= full);
        let mut i: usize = 0;
        while i < self.entries.len()
            invariant
                i <= self.entries@.len(),
                full == names_view(self.entries@),
                lookup_name(full, k@) == lookup_name(full.skip(i as int), k@),
            decreases self.entries@.len() - i,
        {
            proof {
                assert(full.skip(i as int)[0] == full[i as int]);
                assert(full.skip(i as int).drop_first() =~= full.skip(i as int + 1));
            }
            if bytes_eq(&self.entries[i].key, k) {
                return Some(&self.entries[i].name);
            }
            i += 1;
        }
        assert(full.skip(i as int) =~= Seq::<NameEntryView>::empty());
        None
    }

    /// Insert or replace the display name for a key. Only that key's binding
    /// changes, and the registry grows by at most the one new entry.
    pub fn upsert(&mut self, k: &Vec<u8>, name: String)
        requires
            old(self).wf(),
        ensures
            final(self).wf(),
            final(self).lookup(k@) == Some(name@),
            forall|k2: Seq<u8>| k2 != k@ ==> final(self).lookup(k2) == old(self).lookup(k2),
            final(self).entries_view().len() <= old(self).entries_view().len() + 1,
    {
        let ghost full = self.entries_view();
        let mut i: usize = 0;
        while i < self.entries.len()
            invariant
                i <= self.entries@.len(),
                self.entries@ == old(self).entries@,
                full == names_view(self.entries@),
                names_unique(full),
                forall|j: int| 0 <= j < i ==> (#[trigger] full[j]).key != k@,
            decreases self.entries@.len() - i,
        {
            if bytes_eq(&self.entries[i].key, k) {
                let e = NameEntry { key: clone_bytes(k), name };
                let ghost ev = e@;
                self.entries[i] = e;
                proof {
                    assert(names_view(self.entries@) =~= full.update(i as int, ev));
                    assert forall|k2: Seq<u8>| true implies lookup_name(
                        full.update(i as int, ev),
                        k2,
                    ) == if k2 == k@ {
                        Some(ev.name)
                    } else {
                        lookup_name(full, k2)
                    } by {
                        lemma_lookup_update(full, i as int, ev, k2);
                    }
                    assert forall|a: int, b: int|
                        0 <= a < b < full.update(i as int, ev).len() implies full.update(
                        i as int,
                        ev,
                    )[a].key != full.update(i as int, ev)[b].key by {
                        assert(full[a].key != full[b].key);
                    }
                }
                return ;
            }
            i += 1;
        }
        let e = NameEntry { key: clone_bytes(k), name };
        let ghost ev = e@;
        self.entries.push(e);
        proof {
            assert(names_view(self.entries@) =~= full.push(ev));
            assert forall|k2: Seq<u8>| true implies lookup_name(full.push(ev), k2) == if k2 == k@ {
                Some(ev.name)
            } else {
                lookup_name(full, k2)
            } by {
                lemma_lookup_push(full, ev, k2);
            }
            assert forall|a: int, b: int| 0 <= a < b < full.push(ev).len() implies full.push(
                ev,
            )[a].key != full.push(ev)[b].key by {
                if b < full.len() {
                    assert(full[a].key != full[b].key);
                }
            }
        }
    }

    /// How many names are registered.
    pub fn len(&self) -> (r: usize)
        ensures
            r == self.entries_view().len(),
    {
        self.entries.len()
    }
}

/// Byte-string equality.
pub fn bytes_eq(a: &Vec<u8>, b: &Vec<u8>) -> (r: bool)
    ensures
        r == (a@ == b@),
{
    if a.len() != b.len() {
        assert(a@ != b@);
        return false;
    }
    let mut i: usize = 0;
    while i < a.len()
        invariant
            i <= a@.len(),
            a@.len() == b@.len(),
            forall|j: int| 0 <= j < i ==> a@[j] == b@[j],
        decreases a@.len() - i,
    {
        if a[i] != b[i] {
            return false;
        }
        i += 1;
    }
    assert(a@ =~= b@);
    true
}

/// Copy a byte string.
pub fn clone_bytes(b: &Vec<u8>) -> (r: Vec<u8>)
    ensures
        r@ == b@,
{
    let mut out: Vec<u8> = Vec::new();
    let mut i: usize = 0;
    while i < b.len()
        invariant
            i <= b@.len(),
            out@ == b@.take(i as int),
        decreases b@.len() - i,
    {
        out.push(b[i]);
        assert(out@ =~= b@.take(i as int + 1));
        i += 1;
    }
    assert(b@.take(b@.len() as int) =~= b@);
    out
}

} // verus!
