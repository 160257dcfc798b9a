use vstd::prelude::*;

use crate::animal::Animal;
use crate::error::{ErrorKind, ErrorView};

verus! {

pub const CAT_API_URL: &'static str = "https://cat-fact.herokuapp.com/facts/random?animal_type=cat";

pub const DOG_API_URL: &'static str = "http://dog-api.kinduff.com/api/facts";

/// The fact used when the dog provider answers with an empty list.
pub const FALLBACK_FACT: &'static str = "Not available";

/// The body of the cat provider: a single fact.
#[derive(Debug)]
pub struct Cat {
    pub text: String,
}

/// The body of the dog provider: candidate facts, of which the first is used.
#[derive(Debug)]
pub struct Dog {
    pub facts: Vec<String>,
}

/// A provider body, tagged by the provider that produced it.
#[derive(Debug)]
pub enum FetchedFact {
    Cat(Cat),
    Dog(Dog),
}

/// Whether an HTTP status code is in the success range 200..=299.
pub open spec fn is_success(code: u16) -> bool {
    200 <= code <= 299
}

/// The fact that a dog body yields.
pub open spec fn dog_fact(facts: Seq<String>) -> Seq<char> {
    if facts.len() > 0 {
        facts[0]@
    } else {
        FALLBACK_FACT@
    }
}

/// Decides on the outcome of sending the request: `sent` is the response
/// status, or the text of the connection failure.
pub fn sent_outcome(sent: Result<u16, String>) -> (r: Result<(), ErrorKind>)
    ensures
        sent matches Err(d) ==> (r matches Err(e) && e@ == ErrorView::ApiRequest(d@)),
        sent matches Ok(c) ==> if is_success(c) {
            r is Ok
        } else {
            r is Err && r->Err_0@ == ErrorView::ApiResponse(c)
        },
{
    match sent {
        Err(d) => Err(ErrorKind::ApiRequest(d)),
        Ok(c) => {
            if 200 <= c && c <= 299 {
                Ok(())
            } else {
                Err(ErrorKind::ApiResponse(c))
            }
        },
    }
}

/// Decides on the outcome of reading the response body as text.
pub fn body_outcome(read: Result<String, String>) -> (r: Result<String, ErrorKind>)
    ensures
        read matches Ok(t) ==> (r matches Ok(u) && u@ == t@),
        read matches Err(d) ==> (r matches Err(e) && e@ == ErrorView::ToText(d@)),
{
    match read {
        Ok(t) => Ok(t),
        Err(d) => Err(ErrorKind::ToText(d)),
    }
}

/// Decides on the outcome of decoding the body into the provider's shape.
pub fn decode_outcome(decoded: Result<FetchedFact, String>) -> (r: Result<String, ErrorKind>)
    ensures
        decoded matches Ok(f) ==> (r matches Ok(u) && u@ == f.fact_spec()),
        decoded matches Err(d) ==> (r matches Err(e) && e@ == ErrorView::Deserialization(d@)),
{
    match decoded {
        Ok(f) => Ok(f.fact()),
        Err(d) => Err(ErrorKind::Deserialization(d)),
    }
}

impl Cat {
    /// The fact of a cat body: its `text`.
    pub fn fact(&self) -> (r: String)
        ensures
            r@ == self.text@,
    {
        self.text.clone()
    }
}

impl Dog {
    /// The fact of a dog body: its first candidate, or `FALLBACK_FACT` when
    /// there is none.
    pub fn fact(&self) -> (r: String)
        ensures
            r@ == dog_fact(self.facts@),
    {
        if self.facts.len() > 0 {
            self.facts[0].clone()
        } else {
            String::from_str(FALLBACK_FACT)
        }
    }
}

impl FetchedFact {
    pub open spec fn fact_spec(&self) -> Seq<char> {
        match self {
            FetchedFact::Cat(c) => c.text@,
            FetchedFact::Dog(d) => dog_fact(d.facts@),
        }
    }

    /// The fact text of a provider body.
    pub fn fact(&self) -> (r: String)
        ensures
            r@ == self.fact_spec(),
    {
        match self {
            FetchedFact::Cat(c) => c.fact(),
            FetchedFact::Dog(d) => d.fact(),
        }
    }
}

impl Animal {
    /// The upstream endpoint of this animal's provider.
    pub fn endpoint(&self) -> (r: &'static str)
        ensures
            *self == Animal::Cat ==> r@ == CAT_API_URL@,
            *self == Animal::Dog ==> r@ == DOG_API_URL@,
    {
        match self {
            Animal::Cat => CAT_API_URL,
            Animal::Dog => DOG_API_URL,
        }
    }
}

} // verus!
