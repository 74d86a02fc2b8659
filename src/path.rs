use vstd::prelude::*;

verus! {

/// The text of each string in a sequence.
pub open spec fn texts(v: Seq<String>) -> Seq<Seq<char>> {
    Seq::new(v.len(), |i: int| v[i]@)
}

/// Splits `s` at every `'/'`, keeping empty pieces: `"a//b"` gives `a`, ``, `b`.
pub open spec fn raw_segments(s: Seq<char>) -> Seq<Seq<char>>
    decreases s.len(),
{
    if s.len() == 0 {
        seq![Seq::empty()]
    } else {
        let r = raw_segments(s.drop_last());
        if s.last() == '/' {
            r.push(Seq::empty())
        } else {
            r.update(r.len() - 1, r.last().push(s.last()))
        }
    }
}

/// A piece of a path that names a directory entry: neither empty nor `.`.
pub open spec fn is_named(c: Seq<char>) -> bool {
    c.len() > 0 && c != seq!['.']
}

/// The pieces of `r` that name a directory entry, in order.
pub open spec fn named_only(r: Seq<Seq<char>>) -> Seq<Seq<char>>
    decreases r.len(),
{
    if r.len() == 0 {
        Seq::empty()
    } else {
        let p = named_only(r.drop_last());
        if is_named(r.last()) {
            p.push(r.last())
        } else {
            p
        }
    }
}

/// The components of a `/`-separated path text, with empty and `.` components removed.
pub open spec fn components_of(s: Seq<char>) -> Seq<Seq<char>> {
    named_only(raw_segments(s))
}

pub proof fn lemma_raw_segments_nonempty(s: Seq<char>)
    ensures
        raw_segments(s).len() >= 1,
    decreases s.len(),
{
    if s.len() > 0 {
        lemma_raw_segments_nonempty(s.drop_last());
    }
}

/// An absolute directory path, as the sequence of its components below the root.
/// The root itself has no components.
#[derive(Debug)]
pub struct DirPath {
    pub comps: Vec<String>,
}

impl View for DirPath {
    type V = Seq<Seq<char>>;

    open spec fn view(&self) -> Seq<Seq<char>> {
        texts(self.comps@)
    }
}

/// A fresh copy of a text.
pub fn copy_text(s: &str) -> (r: String)
    ensures
        r@ == s@,
{
    String::from_str(s)
}

/// Whether two texts hold the same characters.
pub fn same_text(a: &str, b: &str) -> (r: bool)
    ensures
        r == (a@ == b@),
{
    let n = a.unicode_len();
    if n != b.unicode_len() {
        return false;
    }
    let mut i: usize = 0;
    while i < n
        invariant
            n == a@.len(),
            n == b@.len(),
            i <= n,
            forall|j: int| 0 <= j < i ==> a@[j] == b@[j],
        decreases n - i,
    {
        if a.get_char(i) != b.get_char(i) {
            return false;
        }
        i = i + 1;
    }
    assert(a@ =~= b@);
    true
}

/// The first `k` strings of `v`, copied.
pub fn copy_prefix(v: &Vec<String>, k: usize) -> (r: Vec<String>)
    requires
        k <= v@.len(),
    ensures
        texts(r@) == texts(v@).subrange(0, k as int),
{
    let mut r: Vec<String> = Vec::new();
    let mut i: usize = 0;
    while i < k
        invariant
            i <= k,
            k <= v@.len(),
            texts(r@) =~= texts(v@).subrange(0, i as int),
        decreases k - i,
    {
        let c = copy_text(v[i].as_str());
        proof {
            assert(texts(r@.push(c)) =~= texts(r@).push(c@));
        }
        r.push(c);
        i = i + 1;
        assert(texts(r@) =~= texts(v@).subrange(0, i as int));
    }
    r
}

/// Appends copies of the strings of `tail` to `v`.
pub fn append_copies(v: &mut Vec<String>, tail: &Vec<String>)
    ensures
        texts(final(v)@) == texts(old(v)@) + texts(tail@),
{
    let ghost start = texts(v@);
    let mut i: usize = 0;
    while i < tail.len()
        invariant
            i <= tail@.len(),
            texts(v@) =~= start + texts(tail@).subrange(0, i as int),
        decreases tail@.len() - i,
    {
        let c = copy_text(tail[i].as_str());
        proof {
            assert(texts(v@.push(c)) =~= texts(v@).push(c@));
        }
        v.push(c);
        i = i + 1;
        assert(texts(v@) =~= start + texts(tail@).subrange(0, i as int));
    }
    assert(texts(tail@).subrange(0, i as int) =~= texts(tail@));
}

/// Splits a path text into its components: pieces between `/`, without empty and `.` pieces.
pub fn split_components(s: &str) -> (r: Vec<String>)
    ensures
        texts(r@) == components_of(s@),
{
    let n = s.unicode_len();
    let mut acc: Vec<String> = Vec::new();
    let mut start: usize = 0;
    let mut i: usize = 0;
    proof {
        assert(s@.subrange(0, 0) =~= Seq::<char>::empty());
    }
    while i < n
        invariant
            n == s@.len(),
            start <= i <= n,
            raw_segments(s@.subrange(0, i as int)).len() >= 1,
            raw_segments(s@.subrange(0, i as int)).last() =~= s@.subrange(start as int, i as int),
            texts(acc@) == named_only(raw_segments(s@.subrange(0, i as int)).drop_last()),
        decreases n - i,
    {
        let c = s.get_char(i);
        let ghost pre = s@.subrange(0, i as int);
        let ghost next = s@.subrange(0, i as int + 1);
        proof {
            assert(next.drop_last() =~= pre);
            assert(next.last() == c);
            lemma_raw_segments_nonempty(pre);
        }
        if c == '/' {
            let piece = s.substring_char(start, i);
            let named = i > start && !(i == start + 1 && s.get_char(start) == '.');
            proof {
                let r = raw_segments(next);
                assert(r == raw_segments(pre).push(Seq::<char>::empty()));
                assert(r.drop_last() =~= raw_segments(pre));
                assert(raw_segments(pre) =~= raw_segments(pre).drop_last().push(raw_segments(pre).last()));
                if named {
                    if piece@.len() == 1 {
                        assert(piece@[0] == s@[start as int]);
                        assert(seq!['.'][0] == '.');
                    }
                    assert(is_named(piece@));
                } else {
                    if piece@.len() == 1 {
                        assert(piece@ =~= seq!['.']);
                    }
                    assert(!is_named(piece@));
                }
            }
            if named {
                let t = copy_text(piece);
                proof {
                    assert(texts(acc@.push(t)) =~= texts(acc@).push(t@));
                }
                acc.push(t);
            }
            start = i + 1;
        } else {
            proof {
                let r0 = raw_segments(pre);
                let r = raw_segments(next);
                assert(r == r0.update(r0.len() - 1, r0.last().push(c)));
                assert(r.drop_last() =~= r0.drop_last());
                assert(r.last() =~= s@.subrange(start as int, i as int + 1));
            }
        }
        i = i + 1;
    }
    let piece = s.substring_char(start, n);
    let named = n > start && !(n == start + 1 && s.get_char(start) == '.');
    proof {
        assert(s@.subrange(0, n as int) =~= s@);
        let r = raw_segments(s@);
        assert(r =~= r.drop_last().push(r.last()));
        if !named && piece@.len() == 1 {
            assert(piece@ =~= seq!['.']);
        }
        if named && piece@.len() == 1 {
            assert(piece@[0] == s@[start as int]);
            assert(seq!['.'][0] == '.');
        }
        assert(named == is_named(piece@));
    }
    if named {
        let t = copy_text(piece);
        proof {
            assert(texts(acc@.push(t)) =~= texts(acc@).push(t@));
        }
        acc.push(t);
    }
    acc
}

impl DirPath {
    /// The filesystem root.
    pub fn root() -> (r: DirPath)
        ensures
            r@ == Seq::<Seq<char>>::empty(),
    {
        let r = DirPath { comps: Vec::new() };
        assert(r@ =~= Seq::<Seq<char>>::empty());
        r
    }

    /// A copy of this path.
    pub fn duplicate(&self) -> (r: DirPath)
        ensures
            r@ == self@,
    {
        let comps = copy_prefix(&self.comps, self.comps.len());
        assert(texts(self.comps@).subrange(0, self.comps@.len() as int) =~= self@);
        DirPath { comps }
    }

    /// The path `k` levels up from this one.
    pub fn ancestor_at(&self, k: usize) -> (r: DirPath)
        requires
            k <= self@.len(),
        ensures
            r@ == ancestor(self@, k as int),
    {
        DirPath { comps: copy_prefix(&self.comps, self.comps.len() - k) }
    }

    /// This path with the components of `rel` added below it.
    pub fn join(&self, rel: &Vec<String>) -> (r: DirPath)
        ensures
            r@ == self@ + texts(rel@),
    {
        let mut r = self.duplicate();
        append_copies(&mut r.comps, rel);
        r
    }

    /// The last component, the directory's own name; the root has none.
    pub fn file_name(&self) -> (r: Option<&String>)
        ensures
            self@.len() == 0 ==> r is None,
            self@.len() > 0 ==> (r matches Some(n) && n@ == self@.last()),
    {
        if self.comps.len() == 0 {
            None
        } else {
            Some(&self.comps[self.comps.len() - 1])
        }
    }
}

/// The path `k` levels up from `p`.
pub open spec fn ancestor(p: Seq<Seq<char>>, k: int) -> Seq<Seq<char>> {
    p.subrange(0, p.len() - k)
}

} // verus!
