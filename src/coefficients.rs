use vstd::prelude::*;

use crate::commit::{commit_or_keep, committed};

verus! {

/// Which end of a coefficient's range is meant.
#[derive(Clone, Copy, Debug, PartialEq, Eq, Structural)]
pub enum Bound {
    Min,
    Max,
}

/// One tunable coefficient: its value, its inclusive range, and the range
/// ends as the user typed them. The typed text is kept apart from the
/// numeric bound so that an edit in progress never disturbs the bound.
pub struct Coefficient<S> {
    pub value: S,
    pub min: S,
    pub max: S,
    pub min_text: String,
    pub max_text: String,
}

/// What a coefficient holds, with its texts as character sequences.
pub ghost struct CoefficientModel<S> {
    pub value: S,
    pub min: S,
    pub max: S,
    pub min_text: Seq<char>,
    pub max_text: Seq<char>,
}

impl<S> View for Coefficient<S> {
    type V = CoefficientModel<S>;

    open spec fn view(&self) -> CoefficientModel<S> {
        CoefficientModel {
            value: self.value,
            min: self.min,
            max: self.max,
            min_text: self.min_text@,
            max_text: self.max_text@,
        }
    }
}

/// The numeric bound `which` of `c`.
pub open spec fn bound_of<S>(c: CoefficientModel<S>, which: Bound) -> S {
    match which {
        Bound::Min => c.min,
        Bound::Max => c.max,
    }
}

/// The text of the bound `which` of `c`.
pub open spec fn bound_text_of<S>(c: CoefficientModel<S>, which: Bound) -> Seq<char> {
    match which {
        Bound::Min => c.min_text,
        Bound::Max => c.max_text,
    }
}

/// `c` with its numeric bound `which` set to `v`.
pub open spec fn with_bound<S>(c: CoefficientModel<S>, which: Bound, v: S) -> CoefficientModel<S> {
    match which {
        Bound::Min => CoefficientModel { min: v, ..c },
        Bound::Max => CoefficientModel { max: v, ..c },
    }
}

/// `c` with the text of its bound `which` set to `t`.
pub open spec fn with_bound_text<S>(c: CoefficientModel<S>, which: Bound, t: Seq<char>) -> CoefficientModel<S> {
    match which {
        Bound::Min => CoefficientModel { min_text: t, ..c },
        Bound::Max => CoefficientModel { max_text: t, ..c },
    }
}

/// `c` after committing the parse of its bound text: the numeric bound
/// takes the parsed value if there is one and is kept otherwise.
pub open spec fn commit_bound_model<S>(c: CoefficientModel<S>, which: Bound, parsed: Option<S>) -> CoefficientModel<S> {
    with_bound(c, which, committed(bound_of(c, which), parsed))
}

/// The values of the coefficients in `s`, in order.
pub open spec fn values_of<S>(s: Seq<CoefficientModel<S>>) -> Seq<S> {
    s.map_values(|c: CoefficientModel<S>| c.value)
}

/// An ordered, index-addressed collection of coefficients that grows and
/// shrinks at its end.
pub struct CoefficientSet<S> {
    entries: Vec<Coefficient<S>>,
}

impl<S> View for CoefficientSet<S> {
    type V = Seq<CoefficientModel<S>>;

    closed spec fn view(&self) -> Seq<CoefficientModel<S>> {
        self.entries@.map_values(|c: Coefficient<S>| c@)
    }
}

impl<S> CoefficientSet<S> {
    /// An empty set.
    pub fn new() -> (r: Self)
        ensures
            r@ == Seq::<CoefficientModel<S>>::empty(),
    {
        CoefficientSet { entries: Vec::new() }
    }

    /// The number of coefficients.
    pub fn len(&self) -> (r: usize)
        ensures
            r == self@.len(),
    {
        self.entries.len()
    }

    /// Adds `fresh` after the last coefficient.
    pub fn append(&mut self, fresh: Coefficient<S>)
        ensures
            final(self)@ == old(self)@.push(fresh@),
    {
        self.entries.push(fresh);
        assert(self@ =~= old(self)@.push(fresh@));
    }

    /// Removes and returns the last coefficient; on an empty set nothing
    /// changes and `None` is returned.
    pub fn remove_last(&mut self) -> (r: Option<Coefficient<S>>)
        ensures
            old(self)@.len() == 0 ==> r.is_none() && final(self)@ == old(self)@,
            old(self)@.len() > 0 ==> r.is_some() && r.unwrap()@ == old(self)@.last()
                && final(self)@ == old(self)@.drop_last(),
    {
        let r = self.entries.pop();
        proof {
            if old(self)@.len() > 0 {
                assert(self@ =~= old(self)@.drop_last());
            } else {
                assert(self@ =~= old(self)@);
            }
        }
        r
    }

    /// The coefficient at `index`.
    pub fn get(&self, index: usize) -> (r: &Coefficient<S>)
        requires
            index < self@.len(),
        ensures
            r@ == self@[index as int],
    {
        &self.entries[index]
    }

    /// Sets the value at `index`. The value is not clamped to the range:
    /// a drag may hold it outside for a while.
    pub fn set_value(&mut self, index: usize, v: S)
        requires
            index < old(self)@.len(),
        ensures
            final(self)@ == old(self)@.update(index as int, CoefficientModel { value: v, ..old(self)@[index as int] }),
    {
        self.entries[index].value = v;
        assert(self@ =~= old(self)@.update(index as int, CoefficientModel { value: v, ..old(self)@[index as int] }));
    }

    /// The numeric bound `which` of the coefficient at `index`.
    pub fn bound(&self, index: usize, which: Bound) -> (r: &S)
        requires
            index < self@.len(),
        ensures
            *r == bound_of(self@[index as int], which),
    {
        match which {
            Bound::Min => &self.entries[index].min,
            Bound::Max => &self.entries[index].max,
        }
    }

    /// The text of the bound `which` of the coefficient at `index`, as the
    /// user last typed it.
    pub fn bound_text(&self, index: usize, which: Bound) -> (r: &str)
        requires
            index < self@.len(),
        ensures
            r@ == bound_text_of(self@[index as int], which),
    {
        match which {
            Bound::Min => self.entries[index].min_text.as_str(),
            Bound::Max => self.entries[index].max_text.as_str(),
        }
    }

    /// Replaces the text of the bound `which` at `index`; the numeric bound
    /// is left as it is until the text is committed.
    pub fn set_bound_text(&mut self, index: usize, which: Bound, text: String)
        requires
            index < old(self)@.len(),
        ensures
            final(self)@ == old(self)@.update(index as int, with_bound_text(old(self)@[index as int], which, text@)),
    {
        match which {
            Bound::Min => {
                self.entries[index].min_text = text;
            },
            Bound::Max => {
                self.entries[index].max_text = text;
            },
        }
        assert(self@ =~= old(self)@.update(index as int, with_bound_text(old(self)@[index as int], which, text@)));
    }

    /// Commits the bound text `which` at `index`, given what parsing that
    /// text produced: the numeric bound takes the parsed value, or stays
    /// as it was when the text did not parse. The text itself is never
    /// touched. Returns whether the bound was replaced.
    pub fn commit_bound_text(&mut self, index: usize, which: Bound, parsed: Option<S>) -> (replaced: bool)
        requires
            index < old(self)@.len(),
        ensures
            replaced == parsed.is_some(),
            final(self)@ == old(self)@.update(index as int, commit_bound_model(old(self)@[index as int], which, parsed)),
    {
        let replaced = match which {
            Bound::Min => commit_or_keep(&mut self.entries[index].min, parsed),
            Bound::Max => commit_or_keep(&mut self.entries[index].max, parsed),
        };
        assert(self@ =~= old(self)@.update(index as int, commit_bound_model(old(self)@[index as int], which, parsed)));
        replaced
    }

    /// The values of all coefficients, in order.
    pub fn values(&self) -> (r: Vec<S>)
        where
            S: Copy,
        ensures
            r@ == values_of(self@),
    {
        let mut r: Vec<S> = Vec::new();
        let mut i: usize = 0;
        while i < self.entries.len()
            invariant
                i <= self@.len(),
                self@.len() == self.entries@.len(),
                r@ == values_of(self@).take(i as int),
            decreases self.entries@.len() - i,
        {
            r.push(self.entries[i].value);
            assert(r@ =~= values_of(self@).take(i + 1));
            i = i + 1;
        }
        assert(r@ =~= values_of(self@));
        r
    }
}

/// Appending a coefficient and then removing the last one gives back the
/// set as it was, and the removed coefficient is the one appended.
pub proof fn lemma_append_then_remove_last<S>(s: Seq<CoefficientModel<S>>, fresh: CoefficientModel<S>)
    ensures
        s.push(fresh).len() > 0,
        s.push(fresh).last() == fresh,
        s.push(fresh).drop_last() == s,
{
    assert(s.push(fresh).drop_last() =~= s);
}

/// Typing a text into a bound field and committing it when it does not
/// parse leaves the numeric bound as it was, while the field keeps the
/// typed text for further editing.
pub proof fn lemma_rejected_bound_text_kept<S>(s: Seq<CoefficientModel<S>>, index: int, which: Bound, text: Seq<char>)
    requires
        0 <= index < s.len(),
    ensures
        ({
            let typed = s.update(index, with_bound_text(s[index], which, text));
            let after = typed.update(index, commit_bound_model(typed[index], which, None));
            &&& after.len() == s.len()
            &&& bound_of(after[index], which) == bound_of(s[index], which)
            &&& bound_text_of(after[index], which) == text
            &&& after == typed
        }),
{
    let typed = s.update(index, with_bound_text(s[index], which, text));
    let after = typed.update(index, commit_bound_model(typed[index], which, None));
    assert(commit_bound_model(typed[index], which, None) == typed[index]);
    assert(after =~= typed);
}

} // verus!
