use vstd::prelude::*;

use crate::endian::bytes_range;

verus! {

/// The all-zero 32-byte word: what a never-written storage slot reads as.
pub open spec fn zero_word() -> Seq<u8> {
    Seq::new(32, |i: int| 0u8)
}

/// The adapter forwards storage reads and writes to the host unchanged, a
/// key and a value each being a fixed 32-byte string.  This type is the
/// model of what the adapter relies on the host's transaction-scoped
/// store for: a write binds a value to a key, a read yields the value
/// last bound, and a key never written reads as the zero word.  Tests run
/// the adapter logic against it as the double standing in for the host.
pub struct StorageModel {
    writes: Vec<(Vec<u8>, Vec<u8>)>,
}

/// The map a history of writes denotes: each key holds the value last
/// written to it.
pub open spec fn writes_map(s: Seq<(Vec<u8>, Vec<u8>)>) -> Map<Seq<u8>, Seq<u8>>
    decreases s.len(),
{
    if s.len() == 0 {
        Map::empty()
    } else {
        writes_map(s.drop_last()).insert(s.last().0@, s.last().1@)
    }
}

impl View for StorageModel {
    type V = Map<Seq<u8>, Seq<u8>>;

    closed spec fn view(&self) -> Map<Seq<u8>, Seq<u8>> {
        writes_map(self.writes@)
    }
}

impl StorageModel {
    /// Every recorded key and value is a 32-byte string.
    pub closed spec fn wf(self) -> bool {
        forall|i: int|
            0 <= i < self.writes@.len() ==> ((#[trigger] self.writes@[i]).0@.len() == 32
                && self.writes@[i].1@.len() == 32)
    }

    /// An empty store: no key has been written.
    pub fn new() -> (r: StorageModel)
        ensures
            r.wf(),
            r@ == Map::<Seq<u8>, Seq<u8>>::empty(),
    {
        StorageModel { writes: Vec::new() }
    }

    /// Binds the value to the key, superseding any earlier binding.
    pub fn store(&mut self, key: &Vec<u8>, value: &Vec<u8>)
        requires
            old(self).wf(),
            key@.len() == 32,
            value@.len() == 32,
        ensures
            final(self).wf(),
            final(self)@ == old(self)@.insert(key@, value@),
    {
        let k = bytes_range(key, 0, 32);
        let v = bytes_range(value, 0, 32);
        proof {
            assert(k@ =~= key@);
            assert(v@ =~= value@);
        }
        let ghost before = self.writes@;
        self.writes.push((k, v));
        proof {
            assert(self.writes@.drop_last() =~= before);
            assert(self.writes@.last() == (k, v));
        }
    }

    /// Reads the value bound to the key, or the zero word if none is.
    pub fn load(&self, key: &Vec<u8>) -> (r: Vec<u8>)
        requires
            self.wf(),
            key@.len() == 32,
        ensures
            r@.len() == 32,
            self@.dom().contains(key@) ==> r@ == self@[key@],
            !self@.dom().contains(key@) ==> r@ == zero_word(),
    {
        let mut i: usize = self.writes.len();
        proof {
            assert(self.writes@.take(i as int) =~= self.writes@);
        }
        while i > 0
            invariant
                i <= self.writes@.len(),
                self.wf(),
                key@.len() == 32,
                writes_map(self.writes@).dom().contains(key@) <==> writes_map(
                    self.writes@.take(i as int),
                ).dom().contains(key@),
                writes_map(self.writes@).dom().contains(key@) ==> writes_map(
                    self.writes@.take(i as int),
                )[key@] == writes_map(self.writes@)[key@],
            decreases i,
        {
            i = i - 1;
            proof {
                assert(self.writes@.take(i as int + 1).drop_last() =~= self.writes@.take(i as int));
                assert(self.writes@.take(i as int + 1).last() == self.writes@[i as int]);
            }
            if bytes_equal(&self.writes[i].0, key) {
                let out = bytes_range(&self.writes[i].1, 0, 32);
                proof {
                    assert(out@ =~= self.writes@[i as int].1@);
                }
                return out;
            }
        }
        proof {
            assert(self.writes@.take(0) =~= Seq::<(Vec<u8>, Vec<u8>)>::empty());
        }
        zero_word_bytes()
    }
}

/// The zero word as a fresh vector.
pub fn zero_word_bytes() -> (r: Vec<u8>)
    ensures
        r@ == zero_word(),
{
    let mut out: Vec<u8> = Vec::new();
    let mut i: usize = 0;
    while i < 32
        invariant
            i <= 32,
            out@.len() == i,
            forall|j: int| 0 <= j < i ==> out@[j] == 0u8,
        decreases 32 - i,
    {
        out.push(0u8);
        i = i + 1;
    }
    proof {
        assert(out@ =~= zero_word());
    }
    out
}

/// Whether two byte vectors hold the same bytes.
fn bytes_equal(a: &Vec<u8>, b: &Vec<u8>) -> (r: bool)
    ensures
        r <==> a@ == b@,
{
    if a.len() != b.len() {
        return false;
    }
    let mut i: usize = 0;
    while i < a.len()
        invariant
            i <= a@.len(),
            a@.len() == b@.len(),
            forall|j: int| 0 <= j < i ==> a@[j] == b@[j],
        decreases a@.len() - i,
    {
        if a[i] != b[i] {
            return false;
        }
        i = i + 1;
    }
    proof {
        assert(a@ =~= b@);
    }
    true
}

/// Write-then-read: a store that honors this model holds, after a write
/// of value v at key k, exactly v at k — so a read of k within the same
/// invocation yields v, whatever was bound before and whatever other keys
/// hold.
pub proof fn lemma_write_then_read(m: Map<Seq<u8>, Seq<u8>>, k: Seq<u8>, v: Seq<u8>)
    ensures
        m.insert(k, v).dom().contains(k),
        m.insert(k, v)[k] == v,
        forall|k2: Seq<u8>|
            k2 != k ==> (m.insert(k, v).dom().contains(k2) <==> m.dom().contains(k2)),
        forall|k2: Seq<u8>| k2 != k && m.dom().contains(k2) ==> m.insert(k, v)[k2] == m[k2],
{
}

} // verus!
