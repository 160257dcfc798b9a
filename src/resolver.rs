use vstd::prelude::*;

use crate::animal::{animal_of, lower_of, lowercase, choose_one, registered, Animal};
use crate::error::{ErrorKind, ErrorView};
use crate::param::Param;

verus! {

/// The directive that asks for an animal drawn at random.
pub const ANY_SELECTOR: &'static str = "any";

/// The mathematical content of a resolution result.
pub open spec fn resolution_view(r: Result<Animal, ErrorKind>) -> Result<Animal, ErrorView> {
    match r {
        Ok(a) => Ok(a),
        Err(e) => Err(e@),
    }
}

/// Resolves a lowercased selector; `pick` is the random draw used for the
/// `any` directive, and `Dog` stands in when there was none.
pub open spec fn resolve_lower(lower: Seq<char>, pick: Option<Animal>) -> Result<Animal, ErrorView> {
    if lower == ANY_SELECTOR@ {
        match pick {
            Some(a) => Ok(a),
            None => Ok(Animal::Dog),
        }
    } else {
        match animal_of(lower) {
            Some(a) => Ok(a),
            None => Err(ErrorView::ConvertToAnimal(lower)),
        }
    }
}

/// Resolves a request parameter: validation first, then the lowercased
/// selector.
pub open spec fn resolve_param(p: Param, pick: Option<Animal>) -> Result<Animal, ErrorView> {
    match p.rejection() {
        Some(e) => Err(ErrorView::Validation(e)),
        None => resolve_lower(lower_of(p.raw()->0), pick),
    }
}

/// Whether a valid parameter carries the `any` directive.
pub open spec fn asks_any(p: Param) -> bool {
    p.rejection() is None && lower_of(p.raw()->0) == ANY_SELECTOR@
}

/// Resolves a lowercased selector, with `pick` as the random draw for `any`.
pub fn resolve_lowered(lower: &str, pick: Option<Animal>) -> (r: Result<Animal, ErrorKind>)
    ensures
        resolution_view(r) == resolve_lower(lower@, pick),
{
    let l = String::from_str(lower);
    if l == String::from_str(ANY_SELECTOR) {
        match pick {
            Some(a) => Ok(a),
            None => Ok(Animal::Dog),
        }
    } else {
        Animal::from_lowercase(lower)
    }
}

/// Validates the parameter and resolves it to one animal, drawing one at
/// random among the registered animals for the `any` directive.
pub fn resolve(param: &Param) -> (r: Result<Animal, ErrorKind>)
    ensures
        !asks_any(*param) ==> resolution_view(r) == resolve_param(*param, None),
        asks_any(*param) ==> (r matches Ok(a) && registered().contains(a)),
        exists|pick: Option<Animal>| resolution_view(r) == resolve_param(*param, pick),
{
    match param.validate() {
        Err(e) => Err(ErrorKind::Validation(e)),
        Ok(()) => {
            let raw = param.animal.as_ref().unwrap();
            let lower = lowercase(raw.as_str());
            let pool = Animal::all();
            let pick = if lower == String::from_str(ANY_SELECTOR) {
                choose_one(&pool)
            } else {
                None
            };
            let r = resolve_lowered(lower.as_str(), pick);
            assert(resolution_view(r) == resolve_param(*param, pick));
            r
        },
    }
}

} // verus!
