//! Reading a header from a request.
//!
//! The headers arrive in Rocket's `HeaderMap`. Nothing here looks inside the
//! map: what it holds is given a name, [`header_entries`], and the one method
//! that is called on it is specified over that name.

use rocket::http::HeaderMap;
use vstd::prelude::*;

verus! {

/// A character, with a capital ASCII letter turned into the small one.
pub open spec fn lower(c: char) -> char {
    if 'A' <= c && c <= 'Z' {
        ((c as u32) + 32) as char
    } else {
        c
    }
}

/// A name in ASCII lower case. Characters outside ASCII stay as they are.
pub open spec fn lower_case(name: Seq<char>) -> Seq<char> {
    name.map_values(|c: char| lower(c))
}

/// The values held under a name: none when the name is unknown.
pub open spec fn held(entries: Map<Seq<char>, Seq<Seq<char>>>, name: Seq<char>) -> Seq<Seq<char>> {
    if entries.contains_key(name) {
        entries[name]
    } else {
        Seq::empty()
    }
}

/// Rocket's `HeaderMap`, taken as it is: the verifier sees nothing inside it.
#[verifier::external_type_specification]
#[verifier::external_body]
pub struct ExHeaderMap<'h>(HeaderMap<'h>);

/// What a header map holds: for each header it knows, under the header's name
/// in ASCII lower case, the header's values, oldest first.
pub uninterp spec fn header_entries(headers: HeaderMap<'_>) -> Map<Seq<char>, Seq<Seq<char>>>;

/// Assumed of `HeaderMap::get_one`: the map finds a header by its name
/// without regard to the case of ASCII letters, and returns the first value
/// it holds for that header, or nothing when it holds no value for it (the
/// name is unknown to the map, or is known with no values).
pub assume_specification<'h, 'a>[ HeaderMap::<'h>::get_one ](
    headers: &'a HeaderMap<'h>,
    name: &str,
) -> (r: Option<&'a str>)
    ensures
        r is Some <==> held(header_entries(*headers), lower_case(name@)).len() > 0,
        r matches Some(v) ==> v@ == held(header_entries(*headers), lower_case(name@))[0],
;

/// The values a request holds for the header `name`, however the name is
/// spelled in the request: oldest first.
pub open spec fn values_of(headers: HeaderMap<'_>, name: Seq<char>) -> Seq<Seq<char>> {
    held(header_entries(headers), lower_case(name))
}

/// The first of a header's values, if it has any. Later values are never
/// looked at.
pub open spec fn first_value(values: Seq<Seq<char>>) -> Option<Seq<char>> {
    if values.len() > 0 {
        Some(values[0])
    } else {
        None
    }
}

/// A value that is there and not empty; an empty value counts as none.
pub open spec fn spec_non_empty(value: Option<Seq<char>>) -> Option<Seq<char>> {
    match value {
        Some(text) if text.len() > 0 => Some(text),
        _ => None,
    }
}

/// Passes a value on unless it is empty: an empty value counts as none.
pub fn non_empty<'a>(value: Option<&'a str>) -> (r: Option<&'a str>)
    ensures
        r.deep_view() == spec_non_empty(value.deep_view()),
        r is Some ==> r == value,
{
    match value {
        Some(text) => {
            if text.is_empty() {
                None
            } else {
                Some(text)
            }
        },
        None => None,
    }
}

/// The first value of the header `name`, or `None` when the request has no
/// such header, has it without a value, or has it with an empty first value.
/// The request is only read: asking again gives the same answer.
pub fn header_value<'a>(headers: &'a HeaderMap<'_>, name: &str) -> (r: Option<&'a str>)
    ensures
        r.deep_view() == spec_non_empty(first_value(values_of(*headers, name@))),
{
    non_empty(headers.get_one(name))
}

/// Two spellings of a name that differ only in the case of ASCII letters
/// name the same header.
pub proof fn case_is_ignored(headers: HeaderMap<'_>, name: Seq<char>, spelling: Seq<char>)
    requires
        name.len() == spelling.len(),
        forall|i: int| 0 <= i < name.len() ==> lower(name[i]) == lower(spelling[i]),
    ensures
        values_of(headers, name) == values_of(headers, spelling),
{
    assert(lower_case(name) =~= lower_case(spelling));
}

/// Values that follow the first make no difference.
pub proof fn later_values_are_ignored(values: Seq<Seq<char>>, later: Seq<Seq<char>>)
    requires
        values.len() > 0,
    ensures
        first_value(values + later) == first_value(values),
{
}

} // verus!
