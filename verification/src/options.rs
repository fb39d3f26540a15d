//! The options of a model, kept in a `serde_json::Map` from option ids to values.

use crate::text::text_opt;
use vstd::prelude::*;

verus! {

/// What a map of options holds: for each option id, the text of its value where that is a text.
pub uninterp spec fn option_texts(options: serde_json::Map<String, serde_json::Value>) -> Map<
    Seq<char>,
    Option<Seq<char>>,
>;

/// The contents of a map without entries.
pub open spec fn nothing_chosen() -> Map<Seq<char>, Option<Seq<char>>> {
    Map::empty()
}

/// The chosen text of an option in the contents of a map.
pub open spec fn chosen_in(
    contents: Map<Seq<char>, Option<Seq<char>>>,
    id: Seq<char>,
) -> Option<Seq<char>> {
    if contents.dom().contains(id) {
        contents[id]
    } else {
        None
    }
}

/// `Map::new` of `serde_json`: a map without entries.
#[verifier::external_body]
pub(crate) fn no_options() -> (options: serde_json::Map<String, serde_json::Value>)
    ensures
        option_texts(options) == nothing_chosen(),
{
    serde_json::Map::new()
}

/// `Map::get` and `Value::as_str` of `serde_json`: the text under a key, where the key is there and its
/// value is a text.
#[verifier::external_body]
pub(crate) fn option_text(
    options: &serde_json::Map<String, serde_json::Value>,
    id: &str,
) -> (chosen: Option<String>)
    ensures
        text_opt(chosen) == chosen_in(option_texts(*options), id@),
{
    options.get(id).and_then(|value| value.as_str()).map(|text| text.to_string())
}

/// `Map::insert` of `serde_json` with a text value: the key holds that text, whatever it held before.
#[verifier::external_body]
pub(crate) fn set_option(
    options: &mut serde_json::Map<String, serde_json::Value>,
    id: String,
    choice: String,
)
    ensures
        option_texts(*final(options)) == option_texts(*old(options)).insert(id@, Some(choice@)),
{
    options.insert(id, serde_json::Value::String(choice));
}

/// `Map::remove` of `serde_json`: the key is gone, and every other entry stays.
#[verifier::external_body]
pub(crate) fn unset_option(options: &mut serde_json::Map<String, serde_json::Value>, id: &str)
    ensures
        option_texts(*final(options)) == option_texts(*old(options)).remove(id@),
{
    options.remove(id);
}

/// `Map::clear` of `serde_json`: no entry is left.
#[verifier::external_body]
pub(crate) fn clear_options(options: &mut serde_json::Map<String, serde_json::Value>)
    ensures
        option_texts(*final(options)) == nothing_chosen(),
{
    options.clear();
}

/// Going back to the default takes back a choice: the options are as they were before it.
pub proof fn default_undoes_a_choice(
    contents: Map<Seq<char>, Option<Seq<char>>>,
    id: Seq<char>,
    choice: Seq<char>,
)
    requires
        !contents.dom().contains(id),
    ensures
        contents.insert(id, Some(choice)).remove(id) == contents,
        chosen_in(contents.insert(id, Some(choice)), id) == Some(choice),
{
    assert(contents.insert(id, Some(choice)).remove(id) =~= contents);
}

} // verus!
