//! The two record types a lookup produces.

use vstd::prelude::*;

verus! {

/// A definition and example for a word, including metadata such as the
/// author's name and the definition's rating.
///
/// A value is produced only by decoding a JSON object and is immutable
/// afterwards.  On the wire the identifier field is named `defid`; here it
/// is named `id`.  All other field names match the wire names.
#[derive(Clone, Debug, PartialEq, Eq)]
pub struct Definition {
    /// The name of the user who authored the definition.
    pub author: String,
    /// The text of the definition.
    pub definition: String,
    /// An example to provide context for a definition.
    pub example: String,
    /// The id of the definition (the wire field `defid`).
    pub id: u64,
    /// A permanent link to the definition.
    pub permalink: String,
    /// The number of thumbs down that the definition has received.
    pub thumbs_down: u64,
    /// The number of thumbs up that the definition has received.
    pub thumbs_up: u64,
    /// The word that was defined.
    pub word: String,
}

/// Mathematical model of a [`Definition`].
pub struct DefinitionModel {
    /// Model of [`Definition::author`].
    pub author: Seq<char>,
    /// Model of [`Definition::definition`].
    pub definition: Seq<char>,
    /// Model of [`Definition::example`].
    pub example: Seq<char>,
    /// Model of [`Definition::id`].
    pub id: u64,
    /// Model of [`Definition::permalink`].
    pub permalink: Seq<char>,
    /// Model of [`Definition::thumbs_down`].
    pub thumbs_down: u64,
    /// Model of [`Definition::thumbs_up`].
    pub thumbs_up: u64,
    /// Model of [`Definition::word`].
    pub word: Seq<char>,
}

impl View for Definition {
    type V = DefinitionModel;

    open spec fn view(&self) -> DefinitionModel {
        DefinitionModel {
            author: self.author@,
            definition: self.definition@,
            example: self.example@,
            id: self.id,
            permalink: self.permalink@,
            thumbs_down: self.thumbs_down,
            thumbs_up: self.thumbs_up,
            word: self.word@,
        }
    }
}

/// A full response for a word: the definitions the service returned, in
/// the service's order, and the tags associated with the word.
///
/// Both sequences may be empty, independently of each other; an empty
/// `definitions` means the word was not found and is not an error.
#[derive(Clone, Debug, PartialEq, Eq)]
pub struct Response {
    /// The definitions for the requested word (the wire field `list`).
    pub definitions: Vec<Definition>,
    /// The tags that the word has been tagged with.
    pub tags: Vec<String>,
}

/// Mathematical model of a [`Response`].
pub struct ResponseModel {
    /// Model of [`Response::definitions`].
    pub definitions: Seq<DefinitionModel>,
    /// Model of [`Response::tags`].
    pub tags: Seq<Seq<char>>,
}

impl View for Response {
    type V = ResponseModel;

    open spec fn view(&self) -> ResponseModel {
        ResponseModel {
            definitions: self.definitions@.map(|i: int, d: Definition| d@),
            tags: self.tags@.map(|i: int, t: String| t@),
        }
    }
}

/// The first definition of a response: present exactly when the response
/// holds at least one definition.
pub open spec fn first_definition_spec(r: ResponseModel) -> Option<DefinitionModel> {
    if r.definitions.len() == 0 {
        None
    } else {
        Some(r.definitions[0])
    }
}

impl Response {
    /// Extract the first definition, consuming the response: the
    /// definition is moved out, not copied.  Returns `None` exactly when
    /// the response holds no definition.
    pub fn into_first_definition(self) -> (r: Option<Definition>)
        ensures
            match r {
                Some(d) => first_definition_spec(self@) == Some(d@),
                None => first_definition_spec(self@) is None,
            },
    {
        let mut definitions = self.definitions;
        if definitions.len() > 0 {
            Some(definitions.remove(0))
        } else {
            None
        }
    }
}

} // verus!
