//! What an inference changes: the table of the return types that were seen
//! in each function body, and the list of recorded diagnostics.

use vstd::prelude::*;
use crate::errors::{errors, Error, ErrorV};
use crate::span::Span;
use crate::types::{types, Type, TypeV};
use crate::union::union_of;

verus! {

/// The types of the values that the body of one function returns.
#[derive(Debug, PartialEq, Eq)]
pub struct ReturnEntry {
    /// The span of the function.
    pub span: Span,
    pub types: Vec<Type>,
}

/// The view of an entry of the table of return types.
pub ghost struct ReturnEntryV {
    pub span: Span,
    pub types: Seq<TypeV>,
}

impl View for ReturnEntry {
    type V = ReturnEntryV;

    open spec fn view(&self) -> ReturnEntryV {
        ReturnEntryV { span: self.span, types: types(self.types@) }
    }
}

/// The views of the entries in `s`, in their order.
pub open spec fn return_entries(s: Seq<ReturnEntry>) -> Seq<ReturnEntryV> {
    s.map_values(|e: ReturnEntry| e@)
}

/// The state that is threaded through an inference.
#[derive(Debug, PartialEq, Eq)]
pub struct State {
    pub returns: Vec<ReturnEntry>,
    /// The recoverable diagnostics, in the order in which they were found.
    pub errors: Vec<Error>,
}

/// The view of the state.
pub ghost struct StateV {
    pub returns: Seq<ReturnEntryV>,
    pub errors: Seq<ErrorV>,
}

impl View for State {
    type V = StateV;

    open spec fn view(&self) -> StateV {
        StateV { returns: return_entries(self.returns@), errors: errors(self.errors@) }
    }
}

/// The position of the first entry for `span` at or after `i`.
pub open spec fn return_index_from(s: Seq<ReturnEntryV>, span: Span, i: int) -> Option<int>
    decreases s.len() - i,
{
    if i < 0 || i >= s.len() {
        None
    } else if s[i].span == span {
        Some(i)
    } else {
        return_index_from(s, span, i + 1)
    }
}

impl StateV {
    /// The state before anything was inferred.
    pub open spec fn empty() -> StateV {
        StateV { returns: Seq::empty(), errors: Seq::empty() }
    }

    /// The state with one more recorded diagnostic.
    pub open spec fn report(self, e: ErrorV) -> StateV {
        StateV { errors: self.errors.push(e), ..self }
    }

    /// The state with the diagnostics `es` recorded behind the others.
    pub open spec fn report_all(self, es: Seq<ErrorV>) -> StateV {
        StateV { errors: self.errors + es, ..self }
    }

    /// The state in which the body of the function at `span` was seen to
    /// return one more value, of type `t`.
    pub open spec fn record_return(self, span: Span, t: TypeV) -> StateV {
        match return_index_from(self.returns, span, 0) {
            Some(i) => StateV {
                returns: self.returns.update(
                    i,
                    ReturnEntryV { span, types: self.returns[i].types.push(t) },
                ),
                ..self
            },
            None => StateV {
                returns: self.returns.push(ReturnEntryV { span, types: seq![t] }),
                ..self
            },
        }
    }

    /// The return type that was inferred for the function at `span`: the
    /// union of the types that its body was seen to return, if there are
    /// any. Reading the entry empties it.
    pub open spec fn infer_return_type(self, span: Span) -> (Option<TypeV>, StateV) {
        match return_index_from(self.returns, span, 0) {
            Some(i) => (
                if self.returns[i].types.len() == 0 {
                    None
                } else {
                    Some(union_of(self.returns[i].types))
                },
                StateV {
                    returns: self.returns.update(i, ReturnEntryV { span, types: Seq::empty() }),
                    ..self
                },
            ),
            None => (None, self),
        }
    }
}

impl State {
    /// The state before anything was inferred.
    pub fn new() -> (s: State)
        ensures
            s@ == StateV::empty(),
    {
        let s = State { returns: Vec::new(), errors: Vec::new() };
        assert(s@.returns =~= Seq::empty());
        assert(s@.errors =~= Seq::empty());
        s
    }

    /// Records a diagnostic.
    pub fn report(&mut self, e: Error)
        ensures
            final(self)@ == old(self)@.report(e@),
    {
        self.errors.push(e);
        assert(final(self)@.errors =~= old(self)@.errors.push(e@));
    }

    /// Records the diagnostics `es` behind the others.
    pub fn report_all(&mut self, es: Vec<Error>)
        ensures
            final(self)@ == old(self)@.report_all(errors(es@)),
    {
        let mut es = es;
        let ghost added = es@;
        self.errors.append(&mut es);
        assert(final(self)@.errors =~= old(self)@.errors + errors(added));
    }

    fn return_index(&self, span: Span) -> (r: Option<usize>)
        ensures
            match r {
                Some(i) => return_index_from(self@.returns, span, 0) == Some(i as int) && i
                    < self.returns.len() && self.returns[i as int].span == span,
                None => return_index_from(self@.returns, span, 0).is_none(),
            },
    {
        let mut i: usize = 0;
        while i < self.returns.len()
            invariant
                i <= self.returns.len(),
                return_index_from(self@.returns, span, 0) == return_index_from(
                    self@.returns,
                    span,
                    i as int,
                ),
            decreases self.returns.len() - i,
        {
            if self.returns[i].span == span {
                return Some(i);
            }
            i += 1;
        }
        None
    }

    /// Records that the body of the function at `span` returns a value of
    /// type `t`.
    pub fn record_return(&mut self, span: Span, t: Type)
        ensures
            final(self)@ == old(self)@.record_return(span, t@),
    {
        match self.return_index(span) {
            Some(i) => {
                let mut entry = self.returns.remove(i);
                let ghost before = entry@.types;
                entry.types.push(t);
                assert(entry@.types =~= before.push(t@));
                self.returns.insert(i, entry);
                assert(final(self)@.returns =~= old(self)@.returns.update(
                    i as int,
                    ReturnEntryV { span, types: before.push(t@) },
                ));
            },
            None => {
                let mut ts: Vec<Type> = Vec::new();
                ts.push(t);
                assert(types(ts@) =~= seq![t@]);
                self.returns.push(ReturnEntry { span, types: ts });
                assert(final(self)@.returns =~= old(self)@.returns.push(
                    ReturnEntryV { span, types: seq![t@] },
                ));
            },
        }
    }

    /// The return type that was inferred for the function at `span`. The
    /// entry is read once: it is empty afterwards.
    pub fn infer_return_type(&mut self, span: Span) -> (r: Option<Type>)
        ensures
            (crate::types::opt_type(r), final(self)@) == old(self)@.infer_return_type(span),
    {
        match self.return_index(span) {
            Some(i) => {
                let entry = self.returns.remove(i);
                let empty: Vec<Type> = Vec::new();
                assert(types(empty@) =~= Seq::empty());
                self.returns.insert(i, ReturnEntry { span, types: empty });
                assert(final(self)@.returns =~= old(self)@.returns.update(
                    i as int,
                    ReturnEntryV { span, types: Seq::empty() },
                ));
                if entry.types.len() == 0 {
                    None
                } else {
                    Some(Type::union(entry.types))
                }
            },
            None => None,
        }
    }
}

} // verus!
