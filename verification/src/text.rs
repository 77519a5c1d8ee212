//! Text assembly: the generated code is built as Rust source text.
use vstd::prelude::*;

verus! {

/// The character sequences of a list of strings.
pub open spec fn views(v: Seq<String>) -> Seq<Seq<char>> {
    v.map_values(|s: String| s@)
}

/// The parts, in order, with `sep` between each neighbouring pair.
pub open spec fn join(parts: Seq<Seq<char>>, sep: Seq<char>) -> Seq<char>
    decreases parts.len(),
{
    if parts.len() == 0 {
        Seq::empty()
    } else if parts.len() == 1 {
        parts[0]
    } else {
        join(parts.drop_last(), sep) + sep + parts.last()
    }
}

/// The parts, in order, with nothing between them.
pub open spec fn concat(parts: Seq<Seq<char>>) -> Seq<char>
    decreases parts.len(),
{
    if parts.len() == 0 {
        Seq::empty()
    } else {
        concat(parts.drop_last()) + parts.last()
    }
}

/// Whether `x` occurs in `y` as a run of neighbouring characters.
pub open spec fn occurs_in(x: Seq<char>, y: Seq<char>) -> bool {
    exists|i: int| 0 <= i && i + x.len() <= y.len() && #[trigger] y.subrange(i, i + x.len()) == x
}

/// A text occurs in itself.
pub proof fn lemma_occurs_self(x: Seq<char>)
    ensures
        occurs_in(x, x),
{
    let i: int = 0;
    assert(x.subrange(i, i + x.len()) =~= x);
}

/// The empty text occurs in every text.
pub proof fn lemma_occurs_empty(y: Seq<char>)
    ensures
        occurs_in(Seq::<char>::empty(), y),
{
    let i: int = 0;
    assert(y.subrange(i, i + Seq::<char>::empty().len()) =~= Seq::<char>::empty());
}

/// Occurring is transitive.
pub proof fn lemma_occurs_trans(x: Seq<char>, y: Seq<char>, z: Seq<char>)
    requires
        occurs_in(x, y),
        occurs_in(y, z),
    ensures
        occurs_in(x, z),
{
    let i = choose|i: int| 0 <= i && i + x.len() <= y.len() && #[trigger] y.subrange(i, i + x.len()) == x;
    let j = choose|j: int| 0 <= j && j + y.len() <= z.len() && #[trigger] z.subrange(j, j + y.len()) == y;
    assert(z.subrange(j + i, j + i + x.len()) =~= y.subrange(i, i + x.len()));
}

/// What occurs in a text occurs in the text with more around it.
pub proof fn lemma_occurs_around(x: Seq<char>, y: Seq<char>, a: Seq<char>, b: Seq<char>)
    requires
        occurs_in(x, y),
    ensures
        occurs_in(x, a + y + b),
        occurs_in(x, a + y),
        occurs_in(x, y + b),
{
    let i = choose|i: int| 0 <= i && i + x.len() <= y.len() && #[trigger] y.subrange(i, i + x.len()) == x;
    assert((a + y + b).subrange(a.len() + i, a.len() + i + x.len()) =~= x);
    assert((a + y).subrange(a.len() + i, a.len() + i + x.len()) =~= x);
    assert((y + b).subrange(i, i + x.len()) =~= x);
}

/// Each part occurs in the parts joined.
pub proof fn lemma_occurs_in_join(parts: Seq<Seq<char>>, sep: Seq<char>, k: int)
    requires
        0 <= k < parts.len(),
    ensures
        occurs_in(parts[k], join(parts, sep)),
    decreases parts.len(),
{
    if parts.len() == 1 {
        lemma_occurs_self(parts[k]);
    } else if k == parts.len() - 1 {
        lemma_occurs_self(parts[k]);
        lemma_occurs_around(parts[k], parts[k], join(parts.drop_last(), sep) + sep, Seq::empty());
    } else {
        lemma_occurs_in_join(parts.drop_last(), sep, k);
        assert(parts.drop_last()[k] == parts[k]);
        lemma_occurs_around(parts[k], join(parts.drop_last(), sep), Seq::empty(), sep + parts.last());
        assert(join(parts.drop_last(), sep) + (sep + parts.last()) =~= join(parts, sep));
    }
}

/// Each part occurs in the parts one after another.
pub proof fn lemma_occurs_in_concat(parts: Seq<Seq<char>>, k: int)
    requires
        0 <= k < parts.len(),
    ensures
        occurs_in(parts[k], concat(parts)),
    decreases parts.len(),
{
    if k == parts.len() - 1 {
        lemma_occurs_self(parts[k]);
        lemma_occurs_around(parts[k], parts[k], concat(parts.drop_last()), Seq::empty());
    } else {
        lemma_occurs_in_concat(parts.drop_last(), k);
        assert(parts.drop_last()[k] == parts[k]);
        lemma_occurs_around(parts[k], concat(parts.drop_last()), Seq::empty(), parts.last());
    }
}

/// Whether a string holds exactly the characters of `lit`.
pub fn text_is(s: &String, lit: &str) -> (r: bool)
    ensures
        r == (s@ == lit@),
{
    let other = String::from_str(lit);
    *s == other
}

/// A fresh string with the characters of `lit`.
pub fn text(lit: &str) -> (r: String)
    ensures
        r@ == lit@,
{
    String::from_str(lit)
}

/// The strings of `parts` joined by `sep`.
pub fn join_strings(parts: &Vec<String>, sep: &str) -> (r: String)
    ensures
        r@ == join(views(parts@), sep@),
{
    let mut r = String::new();
    let n = parts.len();
    let ghost vs = views(parts@);
    let mut i: usize = 0;
    while i < n
        invariant
            n == parts@.len(),
            vs == views(parts@),
            vs.len() == n,
            i <= n,
            r@ == join(vs.take(i as int), sep@),
        decreases n - i,
    {
        assert(vs.take(i + 1).drop_last() =~= vs.take(i as int));
        if i > 0 {
            r.append(sep);
        } else {
            assert(vs.take(0) =~= Seq::<Seq<char>>::empty());
        }
        r.append(parts[i].as_str());
        i = i + 1;
    }
    assert(vs.take(n as int) =~= vs);
    r
}

} // verus!
