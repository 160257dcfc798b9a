use vstd::prelude::*;

use crate::animal::{animal_of, lower_of, registered, selector, Animal};
use crate::error::{ErrorView, ParamError};
use crate::param::Param;
use crate::resolver::{asks_any, resolve_param, ANY_SELECTOR};
use crate::response::{answer, error_reply, ok_reply, EnvelopeView, STATUS_OK};

verus! {

/// A valid parameter whose lowercase form is a registered selector resolves
/// to that animal, whatever the random draw, and the answer carries the
/// provider's fact with the lowercase selector echoed back under status 200.
pub proof fn supported_selector_is_echoed(p: Param, pick: Option<Animal>, fact: Seq<char>)
    requires
        p.rejection() is None,
        animal_of(lower_of(p.raw()->0)) is Some,
    ensures
        resolve_param(p, pick) matches Ok(a) && answer(a, Ok(fact)) == ok_reply(
            fact,
            lower_of(p.raw()->0),
        ),
        ok_reply(fact, lower_of(p.raw()->0)).status == STATUS_OK,
{
    let l = lower_of(p.raw()->0);
    reveal_strlit("any");
    reveal_strlit("cat");
    reveal_strlit("dog");
    if l == "cat"@ {
        assert(l[0] != "any"@[0]);
        assert(resolve_param(p, pick) == Ok::<Animal, ErrorView>(Animal::Cat));
    } else {
        assert(l == "dog"@);
        assert(l[0] != "any"@[0]);
        assert(resolve_param(p, pick) == Ok::<Animal, ErrorView>(Animal::Dog));
    }
}

/// The `any` directive always resolves to a registered animal, and the answer
/// names that animal by its canonical selector.
pub proof fn any_resolves_to_registered(p: Param, pick: Option<Animal>, fact: Seq<char>)
    requires
        asks_any(p),
    ensures
        resolve_param(p, pick) matches Ok(a) && registered().contains(a) && answer(a, Ok(fact))
            == ok_reply(fact, selector(a)),
{
    let a = resolve_param(p, pick)->Ok_0;
    match a {
        Animal::Cat => assert(registered()[0] == a),
        Animal::Dog => assert(registered()[1] == a),
    }
}

/// A missing or oversized parameter is answered with status 400 and a
/// non-empty message, and no animal is resolved, so no provider is called.
pub proof fn rejected_param_is_client_error(p: Param, pick: Option<Animal>)
    requires
        p.rejection() is Some,
    ensures
        resolve_param(p, pick) matches Err(e) && error_reply(e).status == 400 && (error_reply(
            e,
        ).body matches EnvelopeView::Error { error } && error.len() > 0),
{
    reveal_strlit("animal: Validation error: required");
    reveal_strlit("animal: Validation error: length (at most 24 characters)");
    let e = resolve_param(p, pick)->Err_0;
    assert(e is Validation);
    match e->Validation_0 {
        ParamError::Missing => assert(e.message().len() > 0),
        ParamError::TooLong => assert(e.message().len() > 0),
    }
}

/// A valid selector that is neither registered nor the `any` directive is
/// answered with status 400 and a message that names it.
pub proof fn unsupported_selector_is_named(p: Param, pick: Option<Animal>)
    requires
        p.rejection() is None,
        lower_of(p.raw()->0) != ANY_SELECTOR@,
        animal_of(lower_of(p.raw()->0)) is None,
    ensures
        resolve_param(p, pick) == Err::<Animal, ErrorView>(
            ErrorView::ConvertToAnimal(lower_of(p.raw()->0)),
        ),
        error_reply(ErrorView::ConvertToAnimal(lower_of(p.raw()->0))).status == 400,
        error_reply(ErrorView::ConvertToAnimal(lower_of(p.raw()->0))).body == (EnvelopeView::Error {
            error: "'"@ + lower_of(p.raw()->0) + "' is not a supported animal."@,
        }),
{
}

/// Every failure of a provider stage is answered with status 500 and a
/// non-empty message.
pub proof fn provider_failure_is_server_error(a: Animal, e: ErrorView)
    requires
        e is ApiRequest || e is ApiResponse || e is ToText || e is Deserialization,
    ensures
        answer(a, Err(e)).status == 500,
        answer(a, Err(e)).body matches EnvelopeView::Error { error } && error.len() > 0,
{
    reveal_strlit("Error during Request to animal API: ");
    reveal_strlit("Response from animal API returned error code: ");
    reveal_strlit("Error fetching text: ");
    reveal_strlit("Error deserializing json string: ");
}

/// Every failure maps to exactly one of the statuses 400 and 500: 400 for the
/// caller's faults, 500 for the providers'.
pub proof fn error_status_is_total(e: ErrorView)
    ensures
        e.status() == 400 <==> (e is Validation || e is ConvertToAnimal),
        e.status() == 500 <==> !(e is Validation || e is ConvertToAnimal),
{
}

} // verus!
