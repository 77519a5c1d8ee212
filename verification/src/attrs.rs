//! The `#[placing]` marker attribute on functions and fields.
use vstd::prelude::*;
use crate::model::{Attr, MetaKind};
use crate::text::text_is;

verus! {

/// Whether an attribute is the `#[placing]` marker, in any form.
pub open spec fn is_placing(a: Attr) -> bool {
    a.path@ == "placing"@
}

/// What the first `#[placing]` among `attrs` says: `Ok(false)` when there is none,
/// `Ok(true)` when it is bare, `Err(i)` when it stands at `i` and carries arguments.
pub open spec fn placing_status(attrs: Seq<Attr>) -> Result<bool, int>
    decreases attrs.len(),
{
    if attrs.len() == 0 {
        Ok(false)
    } else if is_placing(attrs[0]) {
        if attrs[0].meta == MetaKind::Path {
            Ok(true)
        } else {
            Err(0)
        }
    } else {
        match placing_status(attrs.drop_first()) {
            Ok(b) => Ok(b),
            Err(i) => Err(i + 1),
        }
    }
}

/// A status found in a suffix, told relative to the whole sequence.
pub open spec fn shift_status(s: Result<bool, int>, by: int) -> Result<bool, int> {
    match s {
        Ok(b) => Ok(b),
        Err(i) => Err(i + by),
    }
}

/// The attributes with every `#[placing]` left out, the others in order.
pub open spec fn without_placing(attrs: Seq<Attr>) -> Seq<Attr>
    decreases attrs.len(),
{
    if attrs.len() == 0 {
        Seq::empty()
    } else if is_placing(attrs.last()) {
        without_placing(attrs.drop_last())
    } else {
        without_placing(attrs.drop_last()).push(attrs.last())
    }
}

/// A search result of `has_placing_attr`, with the index as an integer.
pub open spec fn status_of(r: Result<bool, usize>) -> Result<bool, int> {
    match r {
        Ok(b) => Ok(b),
        Err(i) => Err(i as int),
    }
}

proof fn lemma_status_skip(attrs: Seq<Attr>, i: int)
    requires
        0 <= i <= attrs.len(),
        forall|j: int| 0 <= j < i ==> !is_placing(#[trigger] attrs[j]),
    ensures
        placing_status(attrs) == shift_status(placing_status(attrs.skip(i)), i),
    decreases i,
{
    if i == 0 {
        assert(attrs.skip(0) =~= attrs);
    } else {
        lemma_status_skip(attrs, i - 1);
        let s = attrs.skip(i - 1);
        assert(s[0] == attrs[i - 1]);
        assert(s.drop_first() =~= attrs.skip(i));
    }
}

/// Checks whether a `#[placing]` attribute is in the list.
///
/// The first `#[placing]` decides: bare, it gives `Ok(true)`; with arguments, it gives
/// `Err` with its index. With none, `Ok(false)`.
pub fn has_placing_attr(attrs: &Vec<Attr>) -> (r: Result<bool, usize>)
    ensures
        status_of(r) == placing_status(attrs@),
        r matches Err(i) ==> i < attrs@.len(),
{
    let n = attrs.len();
    let mut i: usize = 0;
    while i < n
        invariant
            n == attrs@.len(),
            i <= n,
            forall|j: int| 0 <= j < i ==> !is_placing(#[trigger] attrs@[j]),
        decreases n - i,
    {
        let a = &attrs[i];
        if text_is(&a.path, "placing") {
            proof {
                lemma_status_skip(attrs@, i as int);
                assert(attrs@.skip(i as int)[0] == attrs@[i as int]);
            }
            return match a.meta {
                MetaKind::Path => Ok(true),
                _ => Err(i),
            };
        }
        i = i + 1;
    }
    proof {
        lemma_status_skip(attrs@, n as int);
    }
    Ok(false)
}

/// Removes every `#[placing]` attribute, keeping the others in order.
pub fn strip_placing_attr(attrs: Vec<Attr>) -> (r: Vec<Attr>)
    ensures
        r@ == without_placing(attrs@),
{
    let ghost orig = attrs@;
    let mut rest = attrs;
    let mut r: Vec<Attr> = Vec::new();
    let n = rest.len();
    let mut i: usize = 0;
    while i < n
        invariant
            n == orig.len(),
            i <= n,
            rest@ == orig.skip(i as int),
            r@ == without_placing(orig.take(i as int)),
        decreases n - i,
    {
        assert(orig.take(i + 1).drop_last() =~= orig.take(i as int));
        if i == 0 {
            assert(orig.take(0) =~= Seq::<Attr>::empty());
        }
        let a = rest.remove(0);
        assert(a == orig[i as int]);
        assert(rest@ =~= orig.skip(i + 1));
        if !text_is(&a.path, "placing") {
            r.push(a);
        }
        i = i + 1;
    }
    assert(orig.take(n as int) =~= orig);
    r
}

} // verus!
