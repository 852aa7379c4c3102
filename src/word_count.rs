//! Word counts of saved files, as a word-count plugin keeps them.
use vstd::prelude::*;

verus! {

/// The number of space bytes in `b`.
pub open spec fn count_spaces(b: Seq<u8>) -> nat
    decreases b.len(),
{
    if b.len() == 0 {
        0
    } else {
        count_spaces(b.drop_last()) + if b.last() == 32u8 {
            1nat
        } else {
            0nat
        }
    }
}

/// The number of pieces that splitting `s` at each single space gives,
/// empty pieces included.
pub open spec fn word_count(s: Seq<char>) -> nat {
    count_spaces(vstd::utf8::encode_utf8(s)) + 1
}

/// The number of pieces of `contents` between single spaces.
pub fn count_words(contents: &str) -> (r: usize)
    requires
        vstd::utf8::encode_utf8(contents@).len() < usize::MAX,
    ensures
        r == word_count(contents@),
{
    let b = contents.as_bytes();
    let mut n: usize = 0;
    let mut i: usize = 0;
    while i < b.len()
        invariant
            b@ == vstd::utf8::encode_utf8(contents@),
            b@.len() < usize::MAX,
            i <= b@.len(),
            n == count_spaces(b@.subrange(0, i as int)),
            n <= i,
        decreases b@.len() - i,
    {
        assert(b@.subrange(0, i + 1).drop_last() =~= b@.subrange(0, i as int));
        if b[i] == 32 {
            n = n + 1;
        }
        i = i + 1;
    }
    assert(b@.subrange(0, b@.len() as int) =~= b@);
    n + 1
}

/// For each file name, the word count of each save of that file, oldest
/// first; files in the order they were first seen.
#[derive(Debug, Default)]
pub struct WordCount {
    counts: Vec<(String, Vec<usize>)>,
}

impl View for WordCount {
    type V = Seq<(Seq<char>, Seq<usize>)>;

    closed spec fn view(&self) -> Seq<(Seq<char>, Seq<usize>)> {
        self.counts@.map_values(|e: (String, Vec<usize>)| (e.0@, e.1@))
    }
}

/// Whether `files` records `name`.
pub open spec fn has_file(files: Seq<(Seq<char>, Seq<usize>)>, name: Seq<char>) -> bool {
    exists|i: int| 0 <= i < files.len() && files[i].0 == name
}

impl WordCount {
    /// No file name is recorded twice.
    pub open spec fn wf(&self) -> bool {
        forall|i: int, j: int|
            0 <= i < self@.len() && 0 <= j < self@.len() && i != j ==> #[trigger] self@[i].0
                != #[trigger] self@[j].0
    }

    /// No file recorded.
    pub fn new() -> (r: WordCount)
        ensures
            r@ == Seq::<(Seq<char>, Seq<usize>)>::empty(),
            r.wf(),
    {
        let r = WordCount { counts: Vec::new() };
        assert(r@ =~= Seq::<(Seq<char>, Seq<usize>)>::empty());
        r
    }

    /// The number of files recorded.
    pub fn len(&self) -> (r: usize)
        ensures
            r == self@.len(),
    {
        self.counts.len()
    }

    /// The name and counts of the `index`-th file.
    pub fn file(&self, index: usize) -> (r: (&String, &Vec<usize>))
        requires
            index < self@.len(),
        ensures
            r.0@ == self@[index as int].0,
            r.1@ == self@[index as int].1,
    {
        let e = &self.counts[index];
        (&e.0, &e.1)
    }

    /// Record a save of `filename` with `contents`: its word count goes after
    /// the earlier counts of that file, or starts a new file at the end.
    pub fn count_file(&mut self, filename: String, contents: &str)
        requires
            old(self).wf(),
            vstd::utf8::encode_utf8(contents@).len() < usize::MAX,
        ensures
            final(self).wf(),
            forall|i: int|
                0 <= i < old(self)@.len() && old(self)@[i].0 == filename@ ==> final(self)@
                    == old(self)@.update(
                    i,
                    (filename@, old(self)@[i].1.push(word_count(contents@) as usize)),
                ),
            !has_file(old(self)@, filename@) ==> final(self)@ == old(self)@.push(
                (filename@, seq![word_count(contents@) as usize]),
            ),
    {
        let count = count_words(contents);
        let mut i: usize = 0;
        while i < self.counts.len()
            invariant
                i <= self.counts@.len(),
                self@ == old(self)@,
                old(self).wf(),
                count == word_count(contents@),
                self@.len() == self.counts@.len(),
                forall|j: int| 0 <= j < i ==> self@[j].0 != filename@,
            decreases self.counts@.len() - i,
        {
            if self.counts[i].0 == filename {
                let ghost before = self@;
                let (name, mut saves) = self.counts.remove(i);
                saves.push(count);
                self.counts.insert(i, (name, saves));
                proof {
                    assert(before[i as int].0 == filename@);
                    assert(self@ =~= before.update(i as int, (filename@, before[i as int].1.push(count))));
                    assert forall|a: int, b: int|
                        0 <= a < self@.len() && 0 <= b < self@.len() && a != b implies #[trigger] self@[a].0
                        != #[trigger] self@[b].0 by {
                        assert(self@[a].0 == before[a].0);
                        assert(self@[b].0 == before[b].0);
                        assert(old(self)@[a].0 != old(self)@[b].0);
                    }
                    assert forall|k: int|
                        0 <= k < old(self)@.len() && old(self)@[k].0 == filename@ implies k == i by {
                        if k != i {
                            assert(old(self)@[k].0 != old(self)@[i as int].0);
                        }
                    }
                }
                return ;
            }
            i = i + 1;
        }
        let ghost before = self@;
        let mut saves: Vec<usize> = Vec::new();
        saves.push(count);
        self.counts.push((filename, saves));
        proof {
            assert(self@ =~= before.push((filename@, seq![count])));
            assert forall|a: int, b: int|
                0 <= a < self@.len() && 0 <= b < self@.len() && a != b implies #[trigger] self@[a].0
                != #[trigger] self@[b].0 by {
                if a < before.len() {
                    assert(self@[a] == before[a]);
                }
                if b < before.len() {
                    assert(self@[b] == before[b]);
                }
            }
        }
    }
}

} // verus!
