//! The two rendering capabilities: full lines and fragments.
use vstd::prelude::*;

use crate::errors::GerberError;

verus! {

/// Renders a complete, newline-terminated unit of Gerber code.
pub trait GerberCode {
    /// Rendering succeeds.
    spec fn code_ok(&self) -> bool;

    /// The text that rendering appends.
    spec fn code(&self) -> Seq<char>;

    /// `e` is the error that rendering reports.
    spec fn is_code_error(&self, e: GerberError) -> bool;

    /// Appends the rendering to `out`.
    fn serialize(&self, out: &mut String) -> (r: Result<(), GerberError>)
        ensures
            r is Ok <==> self.code_ok(),
            r is Ok ==> final(out)@ == old(out)@ + self.code(),
            r is Err ==> self.is_code_error(r->Err_0),
    ;
}

/// Renders a piece of a line, without terminator, for use inside a full line.
pub trait PartialGerberCode {
    /// Rendering succeeds.
    spec fn partial_ok(&self) -> bool;

    /// The text that rendering appends.
    spec fn partial_code(&self) -> Seq<char>;

    /// `e` is the error that rendering reports.
    spec fn is_partial_error(&self, e: GerberError) -> bool;

    /// Appends the rendering to `out`.
    fn serialize_partial(&self, out: &mut String) -> (r: Result<(), GerberError>)
        ensures
            r is Ok <==> self.partial_ok(),
            r is Ok ==> final(out)@ == old(out)@ + self.partial_code(),
            r is Err ==> self.is_partial_error(r->Err_0),
    ;
}

/// All elements of `s` render.
pub open spec fn all_code_ok<G: GerberCode>(s: Seq<G>) -> bool {
    forall|i: int| 0 <= i < s.len() ==> #[trigger] s[i].code_ok()
}

/// The renderings of the elements of `s`, concatenated in order.
pub open spec fn seq_code<G: GerberCode>(s: Seq<G>) -> Seq<char>
    decreases s.len(),
{
    if s.len() == 0 {
        Seq::empty()
    } else {
        seq_code(s.drop_last()) + s.last().code()
    }
}

/// The error of the first element of `s` that does not render.
pub open spec fn is_first_code_error<G: GerberCode>(s: Seq<G>, e: GerberError) -> bool {
    exists|i: int|
        0 <= i < s.len() && all_code_ok(s.take(i)) && !s[i].code_ok() && #[trigger] s[i].is_code_error(e)
}

/// A sequence renders as the concatenation of its elements, in order.
impl<G: GerberCode> GerberCode for Vec<G> {
    open spec fn code_ok(&self) -> bool {
        all_code_ok(self@)
    }

    open spec fn code(&self) -> Seq<char> {
        seq_code(self@)
    }

    open spec fn is_code_error(&self, e: GerberError) -> bool {
        is_first_code_error(self@, e)
    }

    fn serialize(&self, out: &mut String) -> (r: Result<(), GerberError>) {
        let mut i: usize = 0;
        while i < self.len()
            invariant
                i <= self@.len(),
                all_code_ok(self@.take(i as int)),
                out@ == old(out)@ + seq_code(self@.take(i as int)),
            decreases self@.len() - i,
        {
            match self[i].serialize(out) {
                Err(e) => {
                    proof {
                        assert(!all_code_ok(self@)) by {
                            assert(!self@[i as int].code_ok());
                        }
                        assert(is_first_code_error(self@, e)) by {
                            assert(self@[i as int].is_code_error(e));
                        }
                    }
                    return Err(e);
                },
                Ok(()) => {
                    proof {
                        let t = self@.take(i as int + 1);
                        assert(t.drop_last() =~= self@.take(i as int));
                        assert(t.last() == self@[i as int]);
                        assert(all_code_ok(t)) by {
                            assert forall|k: int| 0 <= k < t.len() implies #[trigger] t[k].code_ok() by {
                                if k < i {
                                    assert(t[k] == self@.take(i as int)[k]);
                                }
                            }
                        }
                    }
                },
            }
            i = i + 1;
        }
        proof {
            assert(self@.take(i as int) =~= self@);
        }
        Ok(())
    }
}

/// An absent value renders as nothing; a present one as itself.
impl<T: PartialGerberCode> PartialGerberCode for Option<T> {
    open spec fn partial_ok(&self) -> bool {
        match self {
            Some(v) => v.partial_ok(),
            None => true,
        }
    }

    open spec fn partial_code(&self) -> Seq<char> {
        match self {
            Some(v) => v.partial_code(),
            None => Seq::empty(),
        }
    }

    open spec fn is_partial_error(&self, e: GerberError) -> bool {
        match self {
            Some(v) => v.is_partial_error(e),
            None => false,
        }
    }

    fn serialize_partial(&self, out: &mut String) -> (r: Result<(), GerberError>) {
        match self {
            Some(v) => v.serialize_partial(out),
            None => {
                proof {
                    assert(out@ =~= old(out)@ + Seq::<char>::empty());
                }
                Ok(())
            },
        }
    }
}

} // verus!
