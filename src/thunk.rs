//! Field values whose decoding is put off until a caller asks for it.

use std::borrow::Cow;
use vstd::prelude::*;
use vstd::string::StringSliceAdditionalSpecFns;
use vstd::utf8::{decode_utf8, encode_utf8};

verus! {

#[verifier::external_type_specification]
#[verifier::external_body]
pub struct ExUtf8Error(std::str::Utf8Error);

#[verifier::external_type_specification]
#[verifier::external_body]
pub struct ExFromUtf8Error(std::string::FromUtf8Error);

#[verifier::external_type_specification]
#[verifier::external_body]
pub struct ExParseIntError(std::num::ParseIntError);

#[verifier::external_type_specification]
#[verifier::external_body]
pub struct ExDecodeError(base64::DecodeError);

/// The errors that can occur while processing a [`Thunk`]
#[derive(Debug)]
pub enum ProcessError {
    /// The decoded bytes are not well-formed UTF-8
    Utf8(std::str::Utf8Error),
    /// The decoded bytes, already held in an owned buffer, are not well-formed UTF-8
    FromUtf8(std::string::FromUtf8Error),
    /// The text is not valid base64
    Base64(base64::DecodeError),
    /// The text is not a valid integer
    IntParse(std::num::ParseIntError),
}

/// How a thunk turns its raw field text into a value and back.
///
/// A processor is stateless: decoding is a function of the raw text alone, so the same raw text
/// always decodes to the same value, and encoding depends on the value alone.
pub trait ThunkProcessor {
    type Error;

    type Output<'a>;

    /// What a decoded output stands for, whichever way it is held.
    type Value;

    /// The value that `out` stands for.
    spec fn value_of(out: Self::Output<'_>) -> Self::Value;

    /// The value that decoding `raw` gives, or `None` when decoding fails.
    spec fn decoded(raw: Seq<char>) -> Option<Self::Value>;

    /// Whether `e` is the error that decoding `raw` reports.
    spec fn rejects(raw: Seq<char>, e: Self::Error) -> bool;

    /// Whether encoding `value` succeeds.
    spec fn encodable(value: Self::Value) -> bool;

    /// Whether `raw` is what encoding `value` gives.
    spec fn encodes(value: Self::Value, raw: Seq<char>) -> bool;

    /// Takes some raw field text and processes it
    fn from_unprocessed<'a>(unprocessed: &'a str) -> (r: Result<Self::Output<'a>, Self::Error>)
        ensures
            match r {
                Ok(out) => Self::decoded(unprocessed@) == Some(Self::value_of(out)),
                Err(e) => Self::decoded(unprocessed@) is None && Self::rejects(unprocessed@, e),
            },
    ;

    /// Takes some processed value and converts it into raw field text
    fn as_unprocessed<'a, 'b>(processed: &'b Self::Output<'a>) -> (r: Result<
        Cow<'b, str>,
        Self::Error,
    >)
        ensures
            r is Ok <==> Self::encodable(Self::value_of(*processed)),
            r matches Ok(text) ==> Self::encodes(Self::value_of(*processed), text@),
    ;
}

/// A field value whose further decoding has been put off.
///
/// An `Unprocessed` thunk borrows the raw field text; a `Processed` one holds the decoded value.
/// Once processed, a thunk never goes back to holding raw text.
#[derive(Debug, Eq, Clone)]
pub enum Thunk<'a, P: ThunkProcessor> {
    Unprocessed(&'a str),
    Processed(P::Output<'a>),
}

/// Whether `a` and `b` hold the same text.
fn same_text(a: &str, b: &str) -> (r: bool)
    ensures
        r == (a@ == b@),
{
    broadcast use vstd::utf8::encode_utf8_decode_utf8;

    let x = a.as_bytes();
    let y = b.as_bytes();
    if x.len() != y.len() {
        return false;
    }
    let mut i: usize = 0;
    while i < x.len()
        invariant
            x.len() == y.len(),
            i <= x.len(),
            x@ == a.spec_bytes(),
            y@ == b.spec_bytes(),
            x@.subrange(0, i as int) == y@.subrange(0, i as int),
        decreases x.len() - i,
    {
        if x[i] != y[i] {
            assert(x@[i as int] != y@[i as int]);
            return false;
        }
        assert(x@.subrange(0, i + 1) =~= x@.subrange(0, i as int).push(x@[i as int]));
        assert(y@.subrange(0, i + 1) =~= y@.subrange(0, i as int).push(y@[i as int]));
        i = i + 1;
    }
    assert(x@ =~= x@.subrange(0, i as int));
    assert(y@ =~= y@.subrange(0, i as int));
    assert(decode_utf8(encode_utf8(a@)) == a@);
    assert(decode_utf8(encode_utf8(b@)) == b@);
    true
}

/// Two thunks are equal only when both are unprocessed and hold the same raw text, or both are
/// processed and hold equal values. An unprocessed thunk never equals a processed one, whatever
/// they decode to.
impl<'a, 'b, P: ThunkProcessor> PartialEq<Thunk<'b, P>> for Thunk<'a, P> where P::Output<'a>: PartialEq<P::Output<'b>> {
    fn eq(&self, other: &Thunk<'b, P>) -> (r: bool)
        ensures
            (*self is Unprocessed && *other is Unprocessed) ==> r == (self->Unprocessed_0@
                == other->Unprocessed_0@),
            (*self is Processed) != (*other is Processed) ==> !r,
    {
        match (self, other) {
            (Thunk::Processed(o1), Thunk::Processed(o2)) => o1 == o2,
            (Thunk::Unprocessed(s1), Thunk::Unprocessed(s2)) => same_text(s1, s2),
            _ => false,
        }
    }
}

impl<'a, 'b, P: ThunkProcessor> vstd::std_specs::cmp::PartialEqSpecImpl<Thunk<'b, P>> for Thunk<'a, P> where P::Output<'a>: PartialEq<P::Output<'b>> {
    open spec fn obeys_eq_spec() -> bool {
        <P::Output<'a> as vstd::std_specs::cmp::PartialEqSpec<P::Output<'b>>>::obeys_eq_spec()
    }

    open spec fn eq_spec(&self, other: &Thunk<'b, P>) -> bool {
        match (self, other) {
            (Thunk::Processed(o1), Thunk::Processed(o2)) => <P::Output<
                'a,
            > as vstd::std_specs::cmp::PartialEqSpec<P::Output<'b>>>::eq_spec(o1, o2),
            (Thunk::Unprocessed(s1), Thunk::Unprocessed(s2)) => s1@ == s2@,
            _ => false,
        }
    }
}

impl<'a, P: ThunkProcessor> Thunk<'a, P> {
    /// What a call of [`Thunk::process`] does: `self` is the state before it, `after` the state
    /// after it and `r` what it returns.
    pub open spec fn process_step(self, after: Self, r: Result<&P::Output<'a>, P::Error>) -> bool {
        match self {
            Thunk::Processed(v) => after == self && (r matches Ok(out) && *out == v),
            Thunk::Unprocessed(raw) => match r {
                Ok(out) => {
                    &&& P::decoded(raw@) == Some(P::value_of(*out))
                    &&& after == Thunk::<'a, P>::Processed(*out)
                },
                Err(e) => P::decoded(raw@) is None && P::rejects(raw@, e) && after == self,
            },
        }
    }

    /// What [`Thunk::as_unprocessed`] returns on `self`: the raw text itself when unprocessed,
    /// the encoding of the value when processed.
    pub open spec fn unprocessed_step(self, r: Result<Seq<char>, P::Error>) -> bool {
        match self {
            Thunk::Unprocessed(raw) => r == Ok::<Seq<char>, P::Error>(raw@),
            Thunk::Processed(v) => match r {
                Ok(text) => P::encodable(P::value_of(v)) && P::encodes(P::value_of(v), text),
                Err(_) => !P::encodable(P::value_of(v)),
            },
        }
    }

    /// Decodes the raw text if this thunk is unprocessed, and returns the decoded value.
    ///
    /// A processed thunk returns its value without decoding again. On a decoding error the
    /// thunk stays unprocessed, holding its raw text as before.
    pub fn process(&mut self) -> (r: Result<&P::Output<'a>, P::Error>)
        ensures
            old(self).process_step(*final(self), r),
    {
        if let Thunk::Unprocessed(raw_data) = *self {
            match P::from_unprocessed(raw_data) {
                Ok(value) => {
                    *self = Thunk::Processed(value);
                },
                Err(e) => {
                    return Err(e);
                },
            }
        }
        match self {
            Thunk::Processed(p) => Ok(p),
            Thunk::Unprocessed(_) => vstd::pervasive::unreached(),
        }
    }

    /// Returns the raw text of this thunk: the original text if unprocessed, borrowed as it is,
    /// and the encoding of the value if processed. This never decodes.
    pub fn as_unprocessed(&self) -> (r: Result<Cow<'_, str>, P::Error>)
        ensures
            self.unprocessed_step(
                match r {
                    Ok(text) => Ok(text@),
                    Err(e) => Err(e),
                },
            ),
            match *self {
                Thunk::Unprocessed(raw) => r == Ok::<Cow<'_, str>, P::Error>(Cow::Borrowed(raw)),
                Thunk::Processed(_) => true,
            },
    {
        match self {
            Thunk::Unprocessed(unprocessed) => Ok(Cow::Borrowed(*unprocessed)),
            Thunk::Processed(content) => P::as_unprocessed(content),
        }
    }

    /// Returns the result of processing this thunk, consuming it.
    pub fn into_processed(self) -> (r: Result<P::Output<'a>, P::Error>)
        ensures
            match self {
                Thunk::Processed(v) => r == Ok::<P::Output<'a>, P::Error>(v),
                Thunk::Unprocessed(raw) => match r {
                    Ok(out) => P::decoded(raw@) == Some(P::value_of(out)),
                    Err(e) => P::decoded(raw@) is None && P::rejects(raw@, e),
                },
            },
    {
        match self {
            Thunk::Unprocessed(unprocessed) => P::from_unprocessed(unprocessed),
            Thunk::Processed(p) => Ok(p),
        }
    }
}

/// Processing a thunk a second time gives what the first call gave: after a success the thunk
/// holds the decoded value, and the second call returns that same value without decoding again;
/// after a failure the thunk is as it was, and the second call fails too.
pub proof fn lemma_process_idempotent<'a, P: ThunkProcessor>(
    t0: Thunk<'a, P>,
    t1: Thunk<'a, P>,
    r1: Result<&P::Output<'a>, P::Error>,
    t2: Thunk<'a, P>,
    r2: Result<&P::Output<'a>, P::Error>,
)
    requires
        t0.process_step(t1, r1),
        t1.process_step(t2, r2),
    ensures
        t2 == t1,
        r1 matches Ok(v1) ==> t1 == Thunk::<'a, P>::Processed(*v1) && (r2 matches Ok(v2)
            && *v2 == *v1),
        r1 is Err ==> t1 == t0 && r2 is Err,
{
}

/// A failed decoding leaves the thunk unprocessed, and writing it out afterwards gives back the
/// original raw text unchanged.
pub proof fn lemma_failed_process_keeps_raw<'a, P: ThunkProcessor>(
    raw: &'a str,
    t1: Thunk<'a, P>,
    r1: Result<&P::Output<'a>, P::Error>,
    text: Result<Seq<char>, P::Error>,
)
    requires
        Thunk::<'a, P>::Unprocessed(raw).process_step(t1, r1),
        r1 is Err,
        t1.unprocessed_step(text),
    ensures
        t1 == Thunk::<'a, P>::Unprocessed(raw),
        text == Ok::<Seq<char>, P::Error>(raw@),
{
}

} // verus!
