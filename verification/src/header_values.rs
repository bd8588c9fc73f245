use vstd::prelude::*;
use vstd::string::StringExecFns;

use crate::header_value::HeaderValue;

verus! {

/// One value as it appears in the rendered list: its text in double
/// quotes.
pub open spec fn rendered_value(v: Seq<char>) -> Seq<char> {
    "\""@ + v + "\""@
}

/// The values of a rendered list, each in double quotes, separated by
/// commas.
pub open spec fn rendered_items(vs: Seq<Seq<char>>) -> Seq<char>
    decreases vs.len(),
{
    if vs.len() == 0 {
        Seq::<char>::empty()
    } else if vs.len() == 1 {
        rendered_value(vs[0])
    } else {
        rendered_items(vs.drop_last()) + ", "@ + rendered_value(vs.last())
    }
}

/// The debugging rendition of a list: its quoted values, separated by
/// commas, between square brackets.
pub open spec fn rendered_list(vs: Seq<Seq<char>>) -> Seq<char> {
    "["@ + rendered_items(vs) + "]"@
}

/// Iterating a list built from a non-empty source reproduces the source:
/// a list whose model equals `source` is well formed, has `source`'s
/// length, and reading every position in order yields exactly `source`'s
/// elements. Restarting the reads yields the same order again, since no
/// read mutates the list.
pub proof fn lemma_iteration_yields_source(source: Seq<Seq<char>>, list: HeaderValues)
    requires
        source.len() > 0,
        list@ == source,
    ensures
        list.wf(),
        list@.len() == source.len(),
        forall|i: int| 0 <= i < source.len() ==> list@[i] == source[i],
{
}

/// An ordered list of `HeaderValue`s for a single header name.
///
/// A well-formed list holds at least one value at all times. The one
/// exception is a list that has just served as the source argument of
/// [`HeaderValues::append`]: it is left empty, is no longer well formed,
/// and must be dropped rather than used again.
///
/// Its mathematical model is the sequence of its values' character
/// sequences, in insertion order.
#[derive(Debug, Clone)]
pub struct HeaderValues {
    inner: Vec<HeaderValue>,
}

impl View for HeaderValues {
    type V = Seq<Seq<char>>;

    closed spec fn view(&self) -> Seq<Seq<char>> {
        self.inner@.map_values(|v: HeaderValue| v@)
    }
}

impl HeaderValues {
    /// A list is well formed when it holds at least one value.
    pub open spec fn wf(&self) -> bool {
        self@.len() > 0
    }

    /// Builds a list holding exactly one value.
    pub fn from_value(value: HeaderValue) -> (r: HeaderValues)
        ensures
            r.wf(),
            r@ == seq![value@],
    {
        let mut inner: Vec<HeaderValue> = Vec::new();
        inner.push(value);
        let r = HeaderValues { inner };
        proof {
            assert(r@ =~= seq![value@]);
        }
        r
    }

    /// Builds a list holding every value of `values`, in order. The
    /// caller must supply at least one value: an empty source cannot form
    /// a well-formed list. Callers that cannot rule an empty source out
    /// use [`HeaderValues::try_from_values`] instead.
    pub fn from_values(values: Vec<HeaderValue>) -> (r: HeaderValues)
        requires
            values@.len() > 0,
        ensures
            r.wf(),
            r@ == values@.map_values(|v: HeaderValue| v@),
    {
        HeaderValues { inner: values }
    }

    /// Builds a list holding every value of `values`, in order, or
    /// reports the absence of values: `None` exactly when `values` is
    /// empty.
    pub fn try_from_values(values: Vec<HeaderValue>) -> (r: Option<HeaderValues>)
        ensures
            values@.len() == 0 <==> r is None,
            r is Some ==> r.unwrap().wf()
                && r.unwrap()@ == values@.map_values(|v: HeaderValue| v@),
    {
        if values.len() == 0 {
            None
        } else {
            Some(HeaderValues::from_values(values))
        }
    }

    /// The number of values held.
    pub fn len(&self) -> (r: usize)
        ensures
            r == self@.len(),
    {
        self.inner.len()
    }

    /// Moves every value of `other` to the end of `self`, preserving the
    /// relative order on both sides, and leaves `other` empty. The
    /// emptied `other` is a consumed list: it is no longer well formed
    /// and must be dropped, not reused.
    pub fn append(&mut self, other: &mut HeaderValues)
        ensures
            final(self)@ == old(self)@ + old(other)@,
            final(other)@ == Seq::<Seq<char>>::empty(),
            old(self).wf() ==> final(self).wf(),
    {
        self.inner.append(&mut other.inner);
        proof {
            assert(self@ =~= old(self)@ + old(other)@);
            assert(other@ =~= Seq::<Seq<char>>::empty());
        }
    }

    /// The final value in insertion order. A well-formed list always has
    /// one; on a consumed (emptied) list this operation is not available.
    pub fn last(&mut self) -> (r: &HeaderValue)
        requires
            old(self).wf(),
        ensures
            *final(self) == *old(self),
            r@ == old(self)@.last(),
    {
        let index = self.inner.len() - 1;
        &self.inner[index]
    }

    /// The value at `index`, or the absence signal `None` for a position
    /// at or past the end.
    pub fn get(&self, index: usize) -> (r: Option<&HeaderValue>)
        ensures
            index < self@.len() ==> r is Some && r.unwrap()@ == self@[index as int],
            index >= self@.len() ==> r is None,
    {
        if index < self.inner.len() {
            Some(&self.inner[index])
        } else {
            None
        }
    }

    /// Plain positional indexing: the caller must know `index` is in
    /// bounds, as with standard sequence indexing. Callers that have not
    /// validated the position use [`HeaderValues::get`] instead.
    pub fn at(&self, index: usize) -> (r: &HeaderValue)
        requires
            index < self@.len(),
        ensures
            r@ == self@[index as int],
    {
        &self.inner[index]
    }

    /// A read-only sub-view of the positions `start..end`, mirroring
    /// standard range indexing.
    pub fn range(&self, start: usize, end: usize) -> (r: &[HeaderValue])
        requires
            start <= end <= self@.len(),
        ensures
            r@.map_values(|v: HeaderValue| v@) == self@.subrange(start as int, end as int),
    {
        let r = vstd::slice::slice_subrange(self.inner.as_slice(), start, end);
        proof {
            assert(r@.map_values(|v: HeaderValue| v@) =~= self@.subrange(
                start as int,
                end as int,
            ));
        }
        r
    }

    /// Equality against a single piece of text compares the first value
    /// only: a multi-valued list equals `other` exactly when its first
    /// value does, whatever values follow.
    pub fn eq_str(&self, other: &str) -> (r: bool)
        requires
            self.wf(),
        ensures
            r == (self@[0] == other@),
    {
        self.at(0).eq_str(other)
    }

    /// Equality against an owned string; same first-value-only contract
    /// as [`HeaderValues::eq_str`].
    pub fn eq_string(&self, other: &String) -> (r: bool)
        requires
            self.wf(),
        ensures
            r == (self@[0] == other@),
    {
        self.eq_str(other.as_str())
    }

    /// Renders the full ordered sequence of values as a list-like form
    /// suitable for debugging, such as a pair of brackets around the
    /// quoted values. The wire-format header line is the concern of the
    /// surrounding header machinery, not of this method.
    pub fn to_list_string(&self) -> (r: String)
        ensures
            r@ == rendered_list(self@),
    {
        let ghost vs = self@;
        let mut out: String = "[".to_owned();
        proof {
            assert(out@ =~= "["@ + rendered_items(vs.take(0)));
        }
        let n = self.inner.len();
        let mut i: usize = 0;
        while i < n
            invariant
                n == vs.len(),
                vs == self@,
                i <= n,
                out@ == "["@ + rendered_items(vs.take(i as int)),
            decreases n - i,
        {
            if i > 0 {
                out.append(", ");
            }
            out.append("\"");
            out.append(self.at(i).as_str());
            out.append("\"");
            proof {
                assert(vs.take(i + 1).drop_last() =~= vs.take(i as int));
                assert(vs.take(i + 1).last() == vs[i as int]);
                assert(out@ =~= "["@ + rendered_items(vs.take(i + 1)));
            }
            i += 1;
        }
        out.append("]");
        proof {
            assert(vs.take(n as int) =~= vs);
            assert(out@ =~= rendered_list(vs));
        }
        out
    }
}

} // verus!
