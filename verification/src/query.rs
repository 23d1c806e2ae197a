//! The inbound request and the extraction of the search text from it.

use vstd::prelude::*;
use crate::text::{blank, is_blank};

verus! {

/// What the pipeline reads of an inbound HTTP request: the parameters of its
/// query string as pairs of name and value, in the order in which they occur.
/// The HTTP method is not part of it, since nothing is decided by it.
#[derive(Debug, PartialEq, Eq)]
pub struct Request {
    pub parameters: Vec<(String, String)>,
}

impl View for Request {
    type V = Seq<(Seq<char>, Seq<char>)>;

    open spec fn view(&self) -> Seq<(Seq<char>, Seq<char>)> {
        self.parameters.deep_view()
    }
}

impl DeepView for Request {
    type V = Seq<(Seq<char>, Seq<char>)>;

    open spec fn deep_view(&self) -> Seq<(Seq<char>, Seq<char>)> {
        self@
    }
}

/// Why a request is turned away before anything is sent to the embedding
/// provider.
#[derive(Debug, Clone, Copy, PartialEq, Eq, Structural)]
pub enum Rejection {
    /// The request has no query string parameters at all.
    NoParameters,
    /// The request has parameters, but none with the configured name.
    MissingParameter,
    /// The parameter is there, but its value is empty or white space only.
    BlankQuery,
}

/// The value of the first parameter called `name`, if there is one.
pub open spec fn first_value(parameters: Seq<(Seq<char>, Seq<char>)>, name: Seq<char>) -> Option<
    Seq<char>,
>
    decreases parameters.len(),
{
    if parameters.len() == 0 {
        None
    } else if parameters[0].0 == name {
        Some(parameters[0].1)
    } else {
        first_value(parameters.drop_first(), name)
    }
}

/// The search text of a request, or the reason why it has none. Only the
/// parameter called `name` is consulted, and of several with that name only the
/// first.
pub open spec fn extraction(parameters: Seq<(Seq<char>, Seq<char>)>, name: Seq<char>) -> Result<
    Seq<char>,
    Rejection,
> {
    if parameters.len() == 0 {
        Err(Rejection::NoParameters)
    } else {
        match first_value(parameters, name) {
            None => Err(Rejection::MissingParameter),
            Some(query) => if is_blank(query) {
                Err(Rejection::BlankQuery)
            } else {
                Ok(query)
            },
        }
    }
}

/// The value that is found belongs to a parameter called `name` that has no
/// parameter of that name before it; none is found only where no parameter has
/// that name. Parameters of other names are never consulted.
pub proof fn first_value_is_the_first(parameters: Seq<(Seq<char>, Seq<char>)>, name: Seq<char>)
    ensures
        match first_value(parameters, name) {
            Some(value) => exists|i: int|
                0 <= i < parameters.len() && parameters[i] == (name, value) && forall|j: int|
                    0 <= j < i ==> (#[trigger] parameters[j]).0 != name,
            None => forall|j: int| 0 <= j < parameters.len() ==> (#[trigger] parameters[j]).0 != name,
        },
    decreases parameters.len(),
{
    if parameters.len() > 0 && parameters[0].0 != name {
        let rest = parameters.drop_first();
        first_value_is_the_first(rest, name);
        match first_value(rest, name) {
            Some(value) => {
                let i = choose|i: int|
                    0 <= i < rest.len() && rest[i] == (name, value) && forall|j: int|
                        0 <= j < i ==> (#[trigger] rest[j]).0 != name;
                assert(parameters[i + 1] == rest[i]);
                assert forall|j: int| 0 <= j < i + 1 implies (#[trigger] parameters[j]).0
                    != name by {
                    if j > 0 {
                        assert(parameters[j] == rest[j - 1]);
                    }
                }
            },
            None => {
                assert forall|j: int| 0 <= j < parameters.len() implies (#[trigger] parameters[j]).0
                    != name by {
                    if j > 0 {
                        assert(parameters[j] == rest[j - 1]);
                    }
                }
            },
        }
    } else if parameters.len() > 0 {
        assert(parameters[0] == (name, parameters[0].1));
    }
}

/// Skipping parameters with other names does not change which value is found.
proof fn lemma_first_value_skips(parameters: Seq<(Seq<char>, Seq<char>)>, name: Seq<char>, i: int)
    requires
        0 <= i < parameters.len(),
        first_value(parameters, name) == first_value(parameters.skip(i), name),
        parameters[i].0 != name,
    ensures
        first_value(parameters, name) == first_value(parameters.skip(i + 1), name),
{
    assert(parameters.skip(i).drop_first() =~= parameters.skip(i + 1));
}

/// Looks up the first parameter called `name`.
pub fn first_parameter(request: &Request, name: &String) -> (found: Option<String>)
    ensures
        match found {
            Some(value) => first_value(request@, name@) == Some(value@),
            None => first_value(request@, name@) is None,
        },
{
    let ghost parameters = request@;
    let mut i: usize = 0;
    assert(parameters.skip(0) =~= parameters);
    while i < request.parameters.len()
        invariant
            parameters == request@,
            i <= request.parameters.len(),
            first_value(parameters, name@) == first_value(parameters.skip(i as int), name@),
        decreases request.parameters.len() - i,
    {
        if request.parameters[i].0 == *name {
            return Some(request.parameters[i].1.clone());
        }
        proof {
            lemma_first_value_skips(parameters, name@, i as int);
        }
        i += 1;
    }
    None
}

/// Extracts the search text from `request`: the value of the first parameter
/// called `name`, unless it is missing or blank.
pub fn extract_query(request: &Request, name: &String) -> (result: Result<String, Rejection>)
    ensures
        match result {
            Ok(query) => extraction(request@, name@) == Ok::<Seq<char>, Rejection>(query@),
            Err(reason) => extraction(request@, name@) == Err::<Seq<char>, Rejection>(reason),
        },
{
    if request.parameters.len() == 0 {
        return Err(Rejection::NoParameters);
    }
    match first_parameter(request, name) {
        None => Err(Rejection::MissingParameter),
        Some(query) => {
            if blank(query.as_str()) {
                Err(Rejection::BlankQuery)
            } else {
                Ok(query)
            }
        },
    }
}

} // verus!
