//! JSON text for the snapshots that the player hands to its host.
//!
//! The text is written by `serde_json`. What it writes is not proved here:
//! `json_object_text` names it, and `json_object` is believed to return it.

use vstd::prelude::*;

verus! {

/// What `serde_json::to_string` returns for the JSON object that has the
/// given members, those with a number as value and those with a string as
/// value: the text, or the message of the error. The object holds one member
/// for each name; of two members with one name the later stands, and a member
/// of `texts` counts as later than any of `numbers`.
pub uninterp spec fn json_object_text(
    numbers: Seq<(Seq<char>, usize)>,
    texts: Seq<(Seq<char>, Seq<char>)>,
) -> Result<Seq<char>, Seq<char>>;

/// The members with a number as value, names as character sequences.
pub open spec fn number_members(members: Seq<(String, usize)>) -> Seq<(Seq<char>, usize)> {
    members.map_values(|m: (String, usize)| (m.0@, m.1))
}

/// The members with a string as value, names and values as character sequences.
pub open spec fn text_members(members: Seq<(String, String)>) -> Seq<(Seq<char>, Seq<char>)> {
    members.map_values(|m: (String, String)| (m.0@, m.1@))
}

/// A text or an error message, as character sequences.
pub open spec fn outcome_text(outcome: Result<String, String>) -> Result<Seq<char>, Seq<char>> {
    match outcome {
        Ok(text) => Ok(text@),
        Err(message) => Err(message@),
    }
}

/// Writes a JSON object with `serde_json::to_string`.
///
/// The members are put into a `serde_json::Map`, first those of `numbers`,
/// then those of `texts`, each value through `serde_json::Value::from`, and
/// the map is written as a `serde_json::Value::Object`. An error of
/// `serde_json` comes back as its message. The contract claims only that the
/// outcome is the one that `json_object_text` names for these members.
#[verifier::external_body]
pub(crate) fn json_object(numbers: &Vec<(String, usize)>, texts: &Vec<(String, String)>) -> (r:
    Result<String, String>)
    ensures
        outcome_text(r) == json_object_text(number_members(numbers@), text_members(texts@)),
{
    let mut object = serde_json::Map::new();
    for (name, value) in numbers {
        object.insert(name.clone(), serde_json::Value::from(*value));
    }
    for (name, value) in texts {
        object.insert(name.clone(), serde_json::Value::from(value.as_str()));
    }
    match serde_json::to_string(&serde_json::Value::Object(object)) {
        Ok(text) => Ok(text),
        Err(e) => Err(e.to_string()),
    }
}

} // verus!
