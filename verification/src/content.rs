//! The kinds of clipboard content, how text is classified, and the tag
//! under which a kind is written to the history table.

use vstd::prelude::*;
use crate::text::{
    chars_of, contains_char, contains_run, has_prefix, has_substring, same_chars, starts_with,
};

verus! {

/// What a piece of clipboard text looks like.
#[derive(Debug, Clone, Copy, PartialEq, Eq, Structural)]
pub enum ContentType {
    Text,
    Url,
    Code,
}

/// The rule of classification, first match wins: a web address by its
/// scheme prefix; code by a pair of braces or one of two keywords;
/// everything else is plain text.
pub open spec fn classify(s: Seq<char>) -> ContentType {
    if has_prefix(s, "http://"@) || has_prefix(s, "https://"@) {
        ContentType::Url
    } else if (s.contains('{') && s.contains('}')) || has_substring(s, "fn "@) || has_substring(
        s,
        "function"@,
    ) {
        ContentType::Code
    } else {
        ContentType::Text
    }
}

/// Classifies the characters of a text by the rule `classify`.
pub fn classify_chars(s: &Vec<char>) -> (kind: ContentType)
    ensures
        kind == classify(s@),
{
    if starts_with(s, &chars_of("http://")) || starts_with(s, &chars_of("https://")) {
        ContentType::Url
    } else if (contains_char(s, '{') && contains_char(s, '}')) || contains_run(
        s,
        &chars_of("fn "),
    ) || contains_run(s, &chars_of("function")) {
        ContentType::Code
    } else {
        ContentType::Text
    }
}

/// The kind whose stored tag is `name`, if there is one.
pub open spec fn kind_named(name: Seq<char>) -> Option<ContentType> {
    if name == "Text"@ {
        Some(ContentType::Text)
    } else if name == "Url"@ {
        Some(ContentType::Url)
    } else if name == "Code"@ {
        Some(ContentType::Code)
    } else {
        None
    }
}

impl ContentType {
    /// The tag written to the `content_type` column.
    pub open spec fn name_spec(self) -> Seq<char> {
        match self {
            ContentType::Text => "Text"@,
            ContentType::Url => "Url"@,
            ContentType::Code => "Code"@,
        }
    }

    /// The tag written to the `content_type` column.
    pub fn name(&self) -> (out: &'static str)
        ensures
            out@ == self.name_spec(),
    {
        match self {
            ContentType::Text => "Text",
            ContentType::Url => "Url",
            ContentType::Code => "Code",
        }
    }

    /// Reads a stored tag back; `None` for any text that is not a tag.
    pub fn from_name(name: &str) -> (kind: Option<ContentType>)
        ensures
            kind == kind_named(name@),
    {
        let chars = chars_of(name);
        if same_chars(&chars, &chars_of("Text")) {
            Some(ContentType::Text)
        } else if same_chars(&chars, &chars_of("Url")) {
            Some(ContentType::Url)
        } else if same_chars(&chars, &chars_of("Code")) {
            Some(ContentType::Code)
        } else {
            None
        }
    }
}

/// Every kind is read back from its own tag, so the three tags differ.
pub proof fn lemma_name_round_trip(kind: ContentType)
    ensures
        kind_named(kind.name_spec()) == Some(kind),
{
    reveal_strlit("Text");
    reveal_strlit("Url");
    reveal_strlit("Code");
    assert("Text"@.len() == 4 && "Url"@.len() == 3 && "Code"@.len() == 4);
    assert("Text"@[0] == 'T' && "Code"@[0] == 'C');
}

} // verus!
