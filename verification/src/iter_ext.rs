//! A small iteration helper: walking a vector while leaving out the element
//! at one chosen index.

use vstd::prelude::*;

verus! {

/// The sequence `s` with the element at index `skip` left out, or `s`
/// unchanged where `skip` is not a valid index.
pub open spec fn skip_nth_seq<T>(s: Seq<T>, skip: int) -> Seq<T> {
    if 0 <= skip < s.len() {
        s.take(skip) + s.skip(skip + 1)
    } else {
        s
    }
}

/// Yields the elements of a vector in order, leaving out the element at one
/// chosen index.
pub struct SkipNth<T> {
    items: Vec<T>,
    skip: Option<usize>,
}

/// Extends a collection with `skip_nth`.
pub trait IterExt<T> where Self: Sized {
    /// The elements the collection holds, in order.
    spec fn spec_items(self) -> Seq<T>;

    /// Consume the collection into an iterator over all its elements except
    /// the one at index `skip`.
    fn skip_nth(self, skip: usize) -> (r: SkipNth<T>)
        ensures
            r.to_emit() == skip_nth_seq(self.spec_items(), skip as int),
    ;
}

impl<T> IterExt<T> for Vec<T> {
    open spec fn spec_items(self) -> Seq<T> {
        self@
    }

    fn skip_nth(self, skip: usize) -> (r: SkipNth<T>) {
        SkipNth { items: self, skip: Some(skip) }
    }
}

impl<T> SkipNth<T> {
    /// The elements this iterator has yet to yield, in order.
    pub closed spec fn to_emit(self) -> Seq<T> {
        match self.skip {
            None => self.items@,
            Some(k) => skip_nth_seq(self.items@, k as int),
        }
    }

    /// Yield the next element, or `None` once all remaining elements (except
    /// the skipped one) have been yielded.
    pub fn next(&mut self) -> (r: Option<T>)
        ensures
            old(self).to_emit().len() == 0 ==> r is None && final(self).to_emit()
                == old(self).to_emit(),
            old(self).to_emit().len() > 0 ==> r == Some(old(self).to_emit()[0])
                && final(self).to_emit() == old(self).to_emit().skip(1),
    {
        if let Some(k) = self.skip {
            if k == 0 {
                self.skip = None;
                if self.items.len() == 0 {
                    return None;
                }
                let _skipped: T = self.items.remove(0);
            } else {
                self.skip = Some(k - 1);
            }
        }
        if self.items.len() == 0 {
            proof {
                assert(old(self).to_emit().len() == 0);
            }
            None
        } else {
            let head: T = self.items.remove(0);
            proof {
                assert(head == old(self).to_emit()[0]);
                assert(self.to_emit() =~= old(self).to_emit().skip(1));
            }
            Some(head)
        }
    }
}

} // verus!
