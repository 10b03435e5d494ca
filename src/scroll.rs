//! The driver-owned text store that the display cycles through.
use vstd::prelude::*;

verus! {

/// A scroll buffer in mathematical terms.
pub struct ScrollView {
    /// Every byte of the fixed-capacity store.
    pub storage: Seq<u8>,
    /// The index of the byte that is shown next.
    pub cursor: nat,
    /// How many bytes at the start of the store are text.
    pub valid_length: nat,
}

impl ScrollView {
    /// The number of bytes the store can hold.
    pub open spec fn capacity(self) -> nat {
        self.storage.len()
    }

    /// The text is within the store and the cursor within the text.
    pub open spec fn wf(self) -> bool {
        &&& self.valid_length <= self.capacity()
        &&& self.cursor <= self.valid_length
    }

    /// The index read by the next advance: the cursor, or 0 once the whole
    /// text has been read.
    pub open spec fn start(self) -> nat {
        if self.cursor >= self.valid_length {
            0
        } else {
            self.cursor
        }
    }

    /// The byte handed out by the next advance; none while there is no text.
    pub open spec fn next_byte(self) -> Option<u8> {
        if self.valid_length == 0 {
            None
        } else {
            Some(self.storage[self.start() as int])
        }
    }

    /// The buffer after one advance.
    pub open spec fn advanced(self) -> ScrollView {
        ScrollView {
            cursor: if self.valid_length == 0 {
                0
            } else {
                self.start() + 1
            },
            ..self
        }
    }

    /// The buffer after `n` advances.
    pub open spec fn advanced_by(self, n: nat) -> ScrollView
        decreases n,
    {
        if n == 0 {
            self
        } else {
            self.advanced_by((n - 1) as nat).advanced()
        }
    }

    /// The buffer after the first `count` bytes of `source` are copied to
    /// the start of the store.
    pub open spec fn loaded(self, source: Seq<u8>, count: nat) -> ScrollView {
        ScrollView {
            storage: source.subrange(0, count as int) + self.storage.subrange(
                count as int,
                self.capacity() as int,
            ),
            valid_length: if count > self.valid_length {
                count
            } else {
                self.valid_length
            },
            ..self
        }
    }
}

/// Advancing keeps the store and the text and moves the read index one
/// step round the text.
proof fn lemma_advance_step(v: ScrollView)
    requires
        v.wf(),
        v.valid_length > 0,
    ensures
        v.advanced().wf(),
        v.advanced().storage == v.storage,
        v.advanced().valid_length == v.valid_length,
        v.advanced().start() == (v.start() + 1) as int % (v.valid_length as int),
{
    let l = v.valid_length as int;
    let s = v.start() as int;
    if s + 1 < l {
        vstd::arithmetic::div_mod::lemma_small_mod((s + 1) as nat, l as nat);
    } else {
        vstd::arithmetic::div_mod::lemma_mod_self_0(l);
    }
}

/// Scrolling is cyclic: over a text of length `L > 0`, advance number `n`
/// (counting from 0) hands out the byte `(start + n) mod L` of the text, so
/// the same `L` bytes come out in order again and again.
pub proof fn lemma_scroll_cycles(v: ScrollView, n: nat)
    requires
        v.wf(),
        v.valid_length > 0,
    ensures
        v.advanced_by(n).wf(),
        v.advanced_by(n).storage == v.storage,
        v.advanced_by(n).valid_length == v.valid_length,
        v.advanced_by(n).start() == (v.start() + n) as int % (v.valid_length as int),
        v.advanced_by(n).next_byte() == Some(
            v.storage[(v.start() + n) as int % (v.valid_length as int)],
        ),
    decreases n,
{
    let l = v.valid_length as int;
    if n == 0 {
        vstd::arithmetic::div_mod::lemma_small_mod(v.start(), v.valid_length);
    } else {
        lemma_scroll_cycles(v, (n - 1) as nat);
        let w = v.advanced_by((n - 1) as nat);
        lemma_advance_step(w);
        vstd::arithmetic::div_mod::lemma_add_mod_noop(v.start() + n - 1, 1int, l);
        if l > 1 {
            vstd::arithmetic::div_mod::lemma_small_mod(1nat, v.valid_length);
        } else {
            vstd::arithmetic::div_mod::lemma_mod_self_0(1);
        }
    }
}

/// A fixed-capacity byte store with a cursor and a count of valid bytes.
pub struct ScrollBuffer {
    storage: Vec<u8>,
    cursor: usize,
    valid_length: usize,
}

impl View for ScrollBuffer {
    type V = ScrollView;

    closed spec fn view(&self) -> ScrollView {
        ScrollView {
            storage: self.storage@,
            cursor: self.cursor as nat,
            valid_length: self.valid_length as nat,
        }
    }
}

impl ScrollBuffer {
    /// The view is well formed.
    pub open spec fn wf(&self) -> bool {
        self@.wf()
    }

    /// A buffer that uses `storage` as its store and holds no text yet.
    pub fn new(storage: Vec<u8>) -> (r: ScrollBuffer)
        ensures
            r.wf(),
            r@.storage == storage@,
            r@.cursor == 0,
            r@.valid_length == 0,
    {
        ScrollBuffer { storage, cursor: 0, valid_length: 0 }
    }

    /// The number of bytes the store can hold.
    pub fn capacity(&self) -> (r: usize)
        ensures
            r == self@.capacity(),
    {
        self.storage.len()
    }

    /// The index of the byte that is shown next.
    pub fn cursor(&self) -> (r: usize)
        ensures
            r == self@.cursor,
    {
        self.cursor
    }

    /// How many bytes of the store are text.
    pub fn valid_length(&self) -> (r: usize)
        ensures
            r == self@.valid_length,
    {
        self.valid_length
    }

    /// The byte of the store at `index`.
    pub fn byte_at(&self, index: usize) -> (r: u8)
        requires
            index < self@.capacity(),
        ensures
            r == self@.storage[index as int],
    {
        self.storage[index]
    }

    /// Copies the first `min(length, capacity)` bytes of `source` to the
    /// start of the store and returns how many were copied. The text grows to
    /// cover the copy; it never shrinks, and the cursor stays where it was.
    pub fn load(&mut self, source: &[u8], length: usize) -> (r: usize)
        requires
            old(self).wf(),
            length <= source@.len(),
        ensures
            final(self).wf(),
            r == (if length < old(self)@.capacity() { length as nat } else { old(self)@.capacity() }),
            r <= old(self)@.capacity(),
            final(self)@.valid_length <= final(self)@.capacity(),
            final(self)@ == old(self)@.loaded(source@, r as nat),
    {
        let capacity = self.storage.len();
        let count: usize = if length < capacity { length } else { capacity };
        let mut i: usize = 0;
        while i < count
            invariant
                count <= capacity,
                count <= source@.len(),
                capacity == old(self)@.capacity(),
                i <= count,
                self.storage@.len() == capacity,
                self.cursor == old(self).cursor,
                self.valid_length == old(self).valid_length,
                forall|j: int| 0 <= j < i ==> self.storage@[j] == source@[j],
                forall|j: int| i <= j < capacity ==> self.storage@[j] == old(self)@.storage[j],
            decreases count - i,
        {
            self.storage.set(i, source[i]);
            i = i + 1;
        }
        if count > self.valid_length {
            self.valid_length = count;
        }
        assert(self@.storage =~= old(self)@.loaded(source@, count as nat).storage);
        count
    }

    /// Hands out the byte under the cursor and moves the cursor on, starting
    /// again from the first byte once the whole text has been read. Hands out
    /// nothing while there is no text.
    pub fn advance(&mut self) -> (r: Option<u8>)
        requires
            old(self).wf(),
        ensures
            final(self).wf(),
            r == old(self)@.next_byte(),
            final(self)@ == old(self)@.advanced(),
    {
        if self.cursor >= self.valid_length {
            self.cursor = 0;
        }
        if self.valid_length == 0 {
            None
        } else {
            let b = self.storage[self.cursor];
            self.cursor = self.cursor + 1;
            Some(b)
        }
    }

    /// Drops the text: cursor and length go back to 0.
    pub fn reset(&mut self)
        requires
            old(self).wf(),
        ensures
            final(self).wf(),
            final(self)@ == (ScrollView { cursor: 0, valid_length: 0, ..old(self)@ }),
    {
        self.cursor = 0;
        self.valid_length = 0;
    }
}

} // verus!
