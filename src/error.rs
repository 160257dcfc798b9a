use vstd::prelude::*;

verus! {

/// Why the animal query parameter was rejected before resolution.
#[derive(Clone, Copy, Debug, PartialEq, Eq, Structural)]
pub enum ParamError {
    /// No `animal` parameter was supplied.
    Missing,
    /// The parameter has more characters than the bound allows.
    TooLong,
}

/// Failures of a fact lookup, tagged by the stage that produced them.
#[derive(Debug)]
pub enum ErrorKind {
    Validation(ParamError),
    ApiRequest(String),
    ApiResponse(u16),
    ToText(String),
    Deserialization(String),
    ConvertToAnimal(String),
}

/// The mathematical content of an `ErrorKind`.
pub enum ErrorView {
    Validation(ParamError),
    ApiRequest(Seq<char>),
    ApiResponse(u16),
    ToText(Seq<char>),
    Deserialization(Seq<char>),
    ConvertToAnimal(Seq<char>),
}

impl View for ErrorKind {
    type V = ErrorView;

    open spec fn view(&self) -> ErrorView {
        match self {
            ErrorKind::Validation(p) => ErrorView::Validation(*p),
            ErrorKind::ApiRequest(d) => ErrorView::ApiRequest(d@),
            ErrorKind::ApiResponse(c) => ErrorView::ApiResponse(*c),
            ErrorKind::ToText(d) => ErrorView::ToText(d@),
            ErrorKind::Deserialization(d) => ErrorView::Deserialization(d@),
            ErrorKind::ConvertToAnimal(v) => ErrorView::ConvertToAnimal(v@),
        }
    }
}

/// The character of one decimal digit.
pub open spec fn digit_char(d: nat) -> char {
    if d == 0 { '0' }
    else if d == 1 { '1' }
    else if d == 2 { '2' }
    else if d == 3 { '3' }
    else if d == 4 { '4' }
    else if d == 5 { '5' }
    else if d == 6 { '6' }
    else if d == 7 { '7' }
    else if d == 8 { '8' }
    else { '9' }
}

/// The decimal notation of `n`, without leading zeros.
pub open spec fn decimal(n: nat) -> Seq<char>
    decreases n,
{
    if n < 10 {
        seq![digit_char(n)]
    } else {
        decimal(n / 10).push(digit_char(n % 10))
    }
}

impl ParamError {
    /// The human-readable text of a parameter rejection.
    pub open spec fn text(self) -> Seq<char> {
        match self {
            ParamError::Missing => "animal: Validation error: required"@,
            ParamError::TooLong => "animal: Validation error: length (at most 24 characters)"@,
        }
    }

    pub fn message(&self) -> (r: String)
        ensures
            r@ == self.text(),
    {
        match self {
            ParamError::Missing => String::from_str("animal: Validation error: required"),
            ParamError::TooLong => String::from_str(
                "animal: Validation error: length (at most 24 characters)",
            ),
        }
    }
}

impl ErrorView {
    /// The HTTP status that reports this failure: the caller's fault is 400,
    /// an upstream fault is 500.
    pub open spec fn status(self) -> u16 {
        match self {
            ErrorView::Validation(_) => 400,
            ErrorView::ConvertToAnimal(_) => 400,
            _ => 500,
        }
    }

    /// The human-readable message of this failure.
    pub open spec fn message(self) -> Seq<char> {
        match self {
            ErrorView::Validation(p) => p.text(),
            ErrorView::ApiRequest(d) => "Error during Request to animal API: "@ + d,
            ErrorView::ApiResponse(c) => "Response from animal API returned error code: "@
                + decimal(c as nat),
            ErrorView::ToText(d) => "Error fetching text: "@ + d,
            ErrorView::Deserialization(d) => "Error deserializing json string: "@ + d,
            ErrorView::ConvertToAnimal(v) => "'"@ + v + "' is not a supported animal."@,
        }
    }
}

fn digit_text(d: u16) -> (r: &'static str)
    requires
        d < 10,
    ensures
        r@ == seq![digit_char(d as nat)],
{
    proof {
        reveal_strlit("0");
        reveal_strlit("1");
        reveal_strlit("2");
        reveal_strlit("3");
        reveal_strlit("4");
        reveal_strlit("5");
        reveal_strlit("6");
        reveal_strlit("7");
        reveal_strlit("8");
        reveal_strlit("9");
    }
    if d == 0 { "0" }
    else if d == 1 { "1" }
    else if d == 2 { "2" }
    else if d == 3 { "3" }
    else if d == 4 { "4" }
    else if d == 5 { "5" }
    else if d == 6 { "6" }
    else if d == 7 { "7" }
    else if d == 8 { "8" }
    else { "9" }
}

/// Appends the decimal notation of `n` to `out`.
pub fn push_decimal(out: &mut String, n: u16)
    ensures
        final(out)@ == old(out)@ + decimal(n as nat),
    decreases n,
{
    if n >= 10 {
        push_decimal(out, n / 10);
        out.append(digit_text(n % 10));
        assert(final(out)@ =~= old(out)@ + decimal(n as nat));
    } else {
        out.append(digit_text(n));
    }
}

impl ErrorKind {
    /// The HTTP status that reports this failure.
    pub fn status(&self) -> (r: u16)
        ensures
            r == self@.status(),
    {
        match self {
            ErrorKind::Validation(_) => 400,
            ErrorKind::ConvertToAnimal(_) => 400,
            _ => 500,
        }
    }

    /// The human-readable message of this failure.
    pub fn message(&self) -> (r: String)
        ensures
            r@ == self@.message(),
    {
        match self {
            ErrorKind::Validation(p) => p.message(),
            ErrorKind::ApiRequest(d) => {
                let mut m = String::from_str("Error during Request to animal API: ");
                m.append(d.as_str());
                m
            },
            ErrorKind::ApiResponse(c) => {
                let mut m = String::from_str("Response from animal API returned error code: ");
                push_decimal(&mut m, *c);
                m
            },
            ErrorKind::ToText(d) => {
                let mut m = String::from_str("Error fetching text: ");
                m.append(d.as_str());
                m
            },
            ErrorKind::Deserialization(d) => {
                let mut m = String::from_str("Error deserializing json string: ");
                m.append(d.as_str());
                m
            },
            ErrorKind::ConvertToAnimal(v) => {
                let mut m = String::from_str("'");
                m.append(v.as_str());
                m.append("' is not a supported animal.");
                assert(m@ =~= self@.message());
                m
            },
        }
    }
}

} // verus!
