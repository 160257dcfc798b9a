use rand::seq::SliceRandom;
use vstd::prelude::*;

use crate::error::{ErrorKind, ErrorView};

verus! {

/// An animal for which an upstream fact provider is registered.
#[derive(Clone, Copy, Debug, PartialEq, Eq, Structural)]
pub enum Animal {
    Cat,
    Dog,
}

/// The canonical lowercase selector of an animal.
pub open spec fn selector(a: Animal) -> Seq<char> {
    match a {
        Animal::Cat => "cat"@,
        Animal::Dog => "dog"@,
    }
}

/// The animal whose selector is exactly `l`, if any.
pub open spec fn animal_of(l: Seq<char>) -> Option<Animal> {
    if l == "cat"@ {
        Some(Animal::Cat)
    } else if l == "dog"@ {
        Some(Animal::Dog)
    } else {
        None
    }
}

/// Every registered animal, in its fixed enumeration order.
pub open spec fn registered() -> Seq<Animal> {
    seq![Animal::Cat, Animal::Dog]
}

/// What `str::to_lowercase` makes of a string.
pub uninterp spec fn lower_of(s: Seq<char>) -> Seq<char>;

/// Relies on `str::to_lowercase`: the result depends on the characters alone.
#[verifier::external_body]
pub(crate) fn lowercase(s: &str) -> (r: String)
    ensures
        r@ == lower_of(s@),
{
    s.to_lowercase()
}

/// Relies on `rand::seq::SliceRandom::choose` over the thread-local generator:
/// `None` exactly for an empty slice, otherwise one of its elements.
#[verifier::external_body]
pub(crate) fn choose_one(pool: &Vec<Animal>) -> (r: Option<Animal>)
    ensures
        r is None <==> pool@.len() == 0,
        r matches Some(a) ==> pool@.contains(a),
{
    pool.as_slice().choose(&mut rand::thread_rng()).copied()
}

impl Animal {
    /// The canonical selector of this animal.
    pub fn as_str(&self) -> (r: &'static str)
        ensures
            r@ == selector(*self),
    {
        match self {
            Animal::Cat => "cat",
            Animal::Dog => "dog",
        }
    }

    /// Every registered animal, in enumeration order.
    pub fn all() -> (r: Vec<Animal>)
        ensures
            r@ == registered(),
    {
        let r = vec![Animal::Cat, Animal::Dog];
        assert(r@ =~= registered());
        r
    }

    /// Parses an already lowercased selector; an unknown one is reported with
    /// its text.
    pub fn from_lowercase(lower: &str) -> (r: Result<Animal, ErrorKind>)
        ensures
            r matches Ok(a) ==> animal_of(lower@) == Some(a),
            r matches Err(e) ==> animal_of(lower@) is None && e@ == ErrorView::ConvertToAnimal(
                lower@,
            ),
            r is Ok <==> animal_of(lower@) is Some,
    {
        let l = String::from_str(lower);
        if l == String::from_str("cat") {
            Ok(Animal::Cat)
        } else if l == String::from_str("dog") {
            Ok(Animal::Dog)
        } else {
            Err(ErrorKind::ConvertToAnimal(l))
        }
    }

    /// Parses a selector case-insensitively.
    pub fn from_selector(s: &str) -> (r: Result<Animal, ErrorKind>)
        ensures
            r matches Ok(a) ==> animal_of(lower_of(s@)) == Some(a),
            r matches Err(e) ==> animal_of(lower_of(s@)) is None && e@
                == ErrorView::ConvertToAnimal(lower_of(s@)),
            r is Ok <==> animal_of(lower_of(s@)) is Some,
    {
        let l = lowercase(s);
        Animal::from_lowercase(l.as_str())
    }
}

} // verus!
