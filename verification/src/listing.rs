//! Paging of listings: the limit asked of the store and the offset applied
//! to what it returned.
use vstd::prelude::*;

verus! {

/// The limit asked of the store: the requested one (or `default`), at most
/// `max`.
pub fn capped_limit(limit: Option<i64>, default: i64, max: i64) -> (r: i64)
    ensures
        r == (match limit {
            Some(l) => if l < max {
                l
            } else {
                max
            },
            None => if default < max {
                default
            } else {
                max
            },
        }),
{
    let l = match limit {
        Some(l) => l,
        None => default,
    };
    if l < max {
        l
    } else {
        max
    }
}

/// The offset as the listings apply it: the requested number (0 when
/// absent) converted to `usize` as the `as` cast does, so that a negative
/// offset wraps around to a large one.
pub open spec fn offset_of(offset: Option<i64>) -> usize {
    match offset {
        Some(o) => o as usize,
        None => 0,
    }
}

/// What is left of a listing after the offset: the items from the offset
/// on, or none when the offset reaches past the end.
pub open spec fn after_offset<T>(items: Seq<T>, offset: Option<i64>) -> Seq<T> {
    if (offset_of(offset) as int) < items.len() {
        items.skip(offset_of(offset) as int)
    } else {
        Seq::empty()
    }
}

/// Applies the offset to a listing.
pub fn apply_offset<T>(items: Vec<T>, offset: Option<i64>) -> (r: Vec<T>)
    ensures
        r@ == after_offset(items@, offset),
{
    let o: usize = match offset {
        Some(x) => #[verifier::truncate] (x as usize),
        None => 0,
    };
    if o < items.len() {
        let mut items = items;
        let mut out: Vec<T> = Vec::new();
        let ghost orig = items@;
        let total = items.len();
        let ghost n = orig.len();
        assert(n == total);
        let mut taken: usize = 0;
        while items.len() > 0
            invariant
                taken + items@.len() == n,
                n == orig.len(),
                n <= usize::MAX,
                items@ == orig.skip(taken as int),
                out@ == (if taken <= o {
                    Seq::<T>::empty()
                } else {
                    orig.subrange(o as int, taken as int)
                }),
                o < n,
            decreases items.len(),
        {
            let x = items.remove(0);
            assert(x == orig[taken as int]);
            if taken >= o {
                out.push(x);
                assert(orig.subrange(o as int, taken + 1) =~= (if taken <= o {
                    Seq::<T>::empty()
                } else {
                    orig.subrange(o as int, taken as int)
                }).push(x));
            }
            assert(orig.skip(taken + 1) =~= orig.skip(taken as int).remove(0));
            taken = taken + 1;
        }
        assert(orig.subrange(o as int, n as int) =~= orig.skip(o as int));
        out
    } else {
        Vec::new()
    }
}

/// Paging by an offset drops exactly that many items from the front and
/// keeps the rest in order (nothing is left past the end); an offset that
/// the machine's `usize` holds is taken as it is.
pub proof fn law_offset_skips<T>(items: Seq<T>, o: i64)
    requires
        0 <= o <= usize::MAX,
    ensures
        o < items.len() ==> after_offset(items, Some(o)).len() == items.len() - o,
        o >= items.len() ==> after_offset(items, Some(o)).len() == 0,
        forall|k: int|
            0 <= k < after_offset(items, Some(o)).len() ==> #[trigger] after_offset(
                items,
                Some(o),
            )[k] == items[o + k],
        after_offset(items, None) == items,
{
    assert(offset_of(Some(o)) == o);
    assert(items.skip(0) =~= items);
}

} // verus!
