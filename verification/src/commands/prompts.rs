//! Prompts for the coding assistant: picking one by its name and filling
//! in its placeholders.

use vstd::prelude::*;
use vstd::string::StringExecFns;
use crate::chars::{replace_all, replaced_all, text_of, to_chars};
use crate::text::{lookup, pair_views, value_of};

verus! {

/// The placeholder for a key: the key between braces.
pub open spec fn placeholder(key: Seq<char>) -> Seq<char> {
    "{"@ + key + "}"@
}

/// A prompt after the given replacements were made, one after the other:
/// each replaces every occurrence of the placeholder for its key by its
/// value, in the prompt as the replacements before it left it.
pub open spec fn filled(prompt: Seq<char>, replacements: Seq<(Seq<char>, Seq<char>)>) -> Seq<char>
    decreases replacements.len(),
{
    if replacements.len() == 0 {
        prompt
    } else {
        replaced_all(
            filled(prompt, replacements.drop_last()),
            placeholder(replacements.last().0),
            replacements.last().1,
        )
    }
}

/// Fills in the placeholders of a prompt.
pub fn fill_placeholders(prompt: &str, replacements: &Vec<(String, String)>) -> (r: String)
    ensures
        r@ == filled(prompt@, pair_views(replacements@)),
{
    let mut text = to_chars(prompt);
    let mut i: usize = 0;
    while i < replacements.len()
        invariant
            i <= replacements.len(),
            text@ == filled(prompt@, pair_views(replacements@).take(i as int)),
        decreases replacements.len() - i,
    {
        proof {
            let all = pair_views(replacements@);
            assert(all.take(i + 1).drop_last() =~= all.take(i as int));
        }
        let key = String::from_str("{").concat(replacements[i].0.as_str()).concat("}");
        text = replace_all(&text, &to_chars(key.as_str()), &to_chars(replacements[i].1.as_str()));
        i += 1;
    }
    proof {
        assert(pair_views(replacements@).take(replacements@.len() as int) =~= pair_views(
            replacements@,
        ));
    }
    text_of(&text)
}

/// What is reported where no prompt has the given name.
pub open spec fn not_found_message(prompt_name: Seq<char>) -> Seq<char> {
    "Prompt '"@ + prompt_name + "' not found in prompts.json"@
}

/// Picks the prompt of the given name among the named prompts, the first
/// where several have the name, and fills in its placeholders. Where no
/// prompt has the name, a message that quotes the name is returned as the
/// error.
pub fn get_prompt(
    prompts: &Vec<(String, String)>,
    prompt_name: &str,
    replacements: &Vec<(String, String)>,
) -> (r: Result<String, String>)
    ensures
        match value_of(pair_views(prompts@), prompt_name@) {
            Some(prompt) => r matches Ok(text) && text@ == filled(
                prompt,
                pair_views(replacements@),
            ),
            None => r matches Err(message) && message@ == not_found_message(prompt_name@),
        },
{
    match lookup(prompts, prompt_name) {
        Some(prompt) => Ok(fill_placeholders(prompt.as_str(), replacements)),
        None => Err(
            String::from_str("Prompt '").concat(prompt_name).concat("' not found in prompts.json"),
        ),
    }
}

} // verus!
