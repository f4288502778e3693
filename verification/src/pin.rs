//! How the PIN of a card is obtained.
use vstd::prelude::*;

use crate::text::same_text;

verus! {

/// Where the PIN comes from.
#[derive(Debug, PartialEq, Eq)]
pub enum PinSource {
    /// The user is asked for it.
    Prompt,
    /// It is the value of this environment variable.
    Environment(String),
}

/// Why there is no PIN.
#[derive(Debug, PartialEq, Eq)]
pub enum PinError {
    /// This environment variable is not set.
    NotSet(String),
    /// This is no way to obtain a PIN.
    Unsupported(String),
}

impl PinError {
    /// The text shown to the user.
    pub open spec fn text(self) -> Seq<char> {
        match self {
            PinError::NotSet(name) => "environment variable "@ + name@ + " not set"@,
            PinError::Unsupported(entry) => "unsupported pin_entry method: "@ + entry@,
        }
    }

    /// Renders the error for the user.
    pub fn message(&self) -> (text: String)
        ensures
            text@ == self.text(),
            *self matches PinError::NotSet(name) ==> text@ == "environment variable "@ + name@
                + " not set"@,
            *self matches PinError::Unsupported(entry) ==> text@
                == "unsupported pin_entry method: "@ + entry@,
    {
        match self {
            PinError::NotSet(name) => "environment variable ".to_owned().concat(
                name.as_str(),
            ).concat(" not set"),
            PinError::Unsupported(entry) => "unsupported pin_entry method: ".to_owned().concat(
                entry.as_str(),
            ),
        }
    }
}

/// Whether a text begins with another.
pub open spec fn starts_with(text: Seq<char>, prefix: Seq<char>) -> bool {
    prefix.len() <= text.len() && text.take(prefix.len() as int) == prefix
}

/// Reads the `pin_entry` setting: `prompt`, or `env:` and the name of an
/// environment variable.
pub fn pin_source(pin_entry: &str) -> (source: Result<PinSource, PinError>)
    ensures
        if pin_entry@ == "prompt"@ {
            source == Ok::<PinSource, PinError>(PinSource::Prompt)
        } else if starts_with(pin_entry@, "env:"@) {
            source matches Ok(PinSource::Environment(name)) && "env:"@ + name@ == pin_entry@
        } else {
            source matches Err(PinError::Unsupported(entry)) && entry@ == pin_entry@
        },
        source == Ok::<PinSource, PinError>(PinSource::Prompt) <==> pin_entry@ == "prompt"@,
        forall|name: Seq<char>|
            pin_entry@ == #[trigger] ("env:"@ + name) ==> (source matches Ok(
                PinSource::Environment(variable),
            ) && variable@ == name),
        source is Err <==> pin_entry@ != "prompt"@ && !(exists|name: Seq<char>|
            pin_entry@ == #[trigger] ("env:"@ + name)),
{
    proof {
        reveal_strlit("env:");
    }
    proof {
        lemma_named_variable(pin_entry@);
    }
    let len: usize = pin_entry.unicode_len();
    if same_text(pin_entry, "prompt") {
        Ok(PinSource::Prompt)
    } else if len >= 4 && same_text(pin_entry.substring_char(0, 4), "env:") {
        let name = pin_entry.substring_char(4, len).to_owned();
        assert("env:"@ + name@ =~= pin_entry@);
        Ok(PinSource::Environment(name))
    } else {
        Err(PinError::Unsupported(pin_entry.to_owned()))
    }
}

/// The PIN that an environment variable holds; `value` is `None` if it is not
/// set to a text.
pub fn pin_from_variable(name: String, value: Option<String>) -> (pin: Result<String, PinError>)
    ensures
        pin == (match value {
            Some(text) => Ok::<String, PinError>(text),
            None => Err(PinError::NotSet(name)),
        }),
{
    match value {
        Some(text) => Ok(text),
        None => Err(PinError::NotSet(name)),
    }
}

proof fn lemma_named_variable(entry: Seq<char>)
    ensures
        starts_with(entry, "env:"@) <==> exists|name: Seq<char>|
            entry == #[trigger] ("env:"@ + name),
        forall|name: Seq<char>|
            entry == #[trigger] ("env:"@ + name) ==> name == entry.skip(4) && entry != "prompt"@,
{
    reveal_strlit("env:");
    reveal_strlit("prompt");
    if starts_with(entry, "env:"@) {
        assert(entry =~= "env:"@ + entry.skip(4));
    }
    assert forall|name: Seq<char>| entry == #[trigger] ("env:"@ + name) implies name == entry.skip(
        4,
    ) && entry != "prompt"@ && starts_with(entry, "env:"@) by {
        assert(name =~= entry.skip(4));
        assert(entry.take(4) =~= "env:"@);
        assert(entry[0] == 'e');
    }
}

/// A setting names a variable exactly if it is `env:` followed by that name,
/// whatever the name is; and no such setting is `prompt`.
pub proof fn law_variables_are_named_behind_the_prefix(name: Seq<char>)
    ensures
        starts_with("env:"@ + name, "env:"@),
        "env:"@ + name != "prompt"@,
        !starts_with("prompt"@, "env:"@),
{
    lemma_named_variable("env:"@ + name);
    lemma_named_variable("prompt"@);
}

} // verus!
