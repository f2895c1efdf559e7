use vstd::prelude::*;

use crate::error::Error;

verus! {

/// The address of the public fact service.
pub const DEFAULT_FACT_URI: &'static str = "https://cat-fact.herokuapp.com";

/// The path, under the base address, of the endpoint that hands out one fact.
pub const FACT_PATH: &'static str = "/facts/random";

/// The body that the fact endpoint answers with.
pub struct CatFact {
    pub text: String,
}

/// The failures that a fact lookup may report.
pub open spec fn is_lookup_error(e: Error) -> bool {
    e == Error::UpstreamError || e == Error::DecodeError
}

/// The fact lookup capability that handlers are given.
pub trait HttpClient: Sized {
    /// Fetches one fact; every call asks the upstream anew.
    fn get_cat_fact(&self) -> (r: Result<String, Error>)
        ensures
            r is Err ==> is_lookup_error(r->Err_0),
    ;
}

/// A fact lookup as handlers reach it, together with a record of the answers
/// that it gave. Only `get_cat_fact` below extends the record, by one answer per call.
pub struct LookupPort<H> {
    client: H,
    answers: Ghost<Seq<Result<Seq<char>, Error>>>,
}

impl<H: HttpClient> LookupPort<H> {
    /// The client itself.
    pub closed spec fn inner(&self) -> H {
        self.client
    }

    /// The answers of the lookups made, oldest first.
    pub closed spec fn answers(&self) -> Seq<Result<Seq<char>, Error>> {
        self.answers@
    }

    /// A port over `client` with no lookup made yet.
    pub fn new(client: H) -> (r: LookupPort<H>)
        ensures
            r.inner() == client,
            r.answers() == Seq::<Result<Seq<char>, Error>>::empty(),
    {
        LookupPort { client, answers: Ghost(Seq::empty()) }
    }

    /// The client, to read.
    pub fn client(&self) -> (r: &H)
        ensures
            *r == self.inner(),
    {
        &self.client
    }

    /// Fetches one fact through the client and records the answer.
    pub fn get_cat_fact(&mut self) -> (r: Result<String, Error>)
        ensures
            final(self).inner() == old(self).inner(),
            final(self).answers() == old(self).answers().push(text_result(r)),
            r is Err ==> is_lookup_error(r->Err_0),
    {
        let r = self.client.get_cat_fact();
        self.answers = Ghost(self.answers@.push(text_result(r)));
        r
    }
}

/// An HTTP status in the success range.
pub open spec fn is_success_spec(status: u16) -> bool {
    200 <= status && status < 300
}

pub fn is_success(status: u16) -> (r: bool)
    ensures
        r == is_success_spec(status),
{
    200 <= status && status < 300
}

/// The address that a lookup asks, for a given base address.
pub fn fact_url(base: &str) -> (r: String)
    ensures
        r@ == base@ + FACT_PATH@,
{
    let mut url = base.to_owned();
    url.append(FACT_PATH);
    url
}

/// What a lookup reports once the upstream has answered: `status` is `None` where
/// the request never got an answer, and `decoded` is the body read as a fact,
/// `None` where it has another shape.
pub open spec fn fact_outcome(status: Option<u16>, decoded: Option<Seq<char>>) -> Result<
    Seq<char>,
    Error,
> {
    match status {
        None => Err(Error::UpstreamError),
        Some(s) => if !is_success_spec(s) {
            Err(Error::UpstreamError)
        } else {
            match decoded {
                None => Err(Error::DecodeError),
                Some(text) => Ok(text),
            }
        },
    }
}

/// The text of a decoded fact, if there is one.
pub open spec fn fact_text(decoded: Option<CatFact>) -> Option<Seq<char>> {
    match decoded {
        Some(f) => Some(f.text@),
        None => None,
    }
}

/// A lookup's result with the text as a value.
pub open spec fn text_result(r: Result<String, Error>) -> Result<Seq<char>, Error> {
    match r {
        Ok(s) => Ok(s@),
        Err(e) => Err(e),
    }
}

/// Decides a lookup from the upstream's status and its decoded body.
pub fn fact_from_response(status: Option<u16>, decoded: Option<CatFact>) -> (r: Result<
    String,
    Error,
>)
    ensures
        text_result(r) == fact_outcome(status, fact_text(decoded)),
{
    match status {
        None => Err(Error::UpstreamError),
        Some(s) => {
            if !is_success(s) {
                Err(Error::UpstreamError)
            } else {
                match decoded {
                    None => Err(Error::DecodeError),
                    Some(fact) => Ok(fact.text),
                }
            }
        },
    }
}

} // verus!
