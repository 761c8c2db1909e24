//! Structured font queries derived from informal typeface, family and style
//! names.

use vstd::prelude::*;
use vstd::string::StringExecFns;
use crate::substr::{chars_of, contains_chars, lemma_occurs_between, occurs_in};

verus! {

/// The upper-case form of a text under the Unicode case mapping.
pub uninterp spec fn uppercase(text: Seq<char>) -> Seq<char>;

/// `str::to_uppercase`: returns the upper-case equivalent of the text as a new
/// string. The mapping is the locale-independent one of the Unicode standard,
/// so the result depends on the characters alone; it is named, not spelled out.
#[verifier::external_body]
pub(crate) fn to_uppercase(text: &str) -> (upper: String)
    ensures
        upper@ == uppercase(text@),
{
    text.to_uppercase()
}

/// What a system font index is asked for.
#[derive(Clone, Debug)]
pub struct FontQuery {
    pub bold: bool,
    pub italic: bool,
    pub oblique: bool,
    pub monospace: bool,
    /// The family name to match; empty when any family will do.
    pub family: String,
}

/// The mathematical content of a [`FontQuery`].
pub struct QueryModel {
    pub bold: bool,
    pub italic: bool,
    pub oblique: bool,
    pub monospace: bool,
    pub family: Seq<char>,
}

impl View for FontQuery {
    type V = QueryModel;

    open spec fn view(&self) -> QueryModel {
        QueryModel {
            bold: self.bold,
            italic: self.italic,
            oblique: self.oblique,
            monospace: self.monospace,
            family: self.family@,
        }
    }
}

/// The view of an optional text.
pub open spec fn text_of(text: Option<&str>) -> Option<Seq<char>> {
    match text {
        Some(t) => Some(t@),
        None => None,
    }
}

/// The upper-case form of an optional text.
pub open spec fn caps_of(text: Option<Seq<char>>) -> Option<Seq<char>> {
    match text {
        Some(t) => Some(uppercase(t)),
        None => None,
    }
}

/// The upper-case form of the view of an optional text.
pub open spec fn upper_of(text: Option<&str>) -> Option<Seq<char>> {
    caps_of(text_of(text))
}

/// Whether an upper-cased hint is present and mentions `word`.
pub open spec fn mentions(caps: Option<Seq<char>>, word: Seq<char>) -> bool {
    caps matches Some(c) && occurs_in(c, word)
}

/// What a typeface hint adds to a family name: "Serif" when the hint mentions
/// serif, else "Sans" when it mentions sans, else nothing.
pub open spec fn family_suffix(typeface_caps: Option<Seq<char>>) -> Seq<char> {
    if mentions(typeface_caps, "SERIF"@) {
        "Serif"@
    } else if mentions(typeface_caps, "SANS"@) {
        "Sans"@
    } else {
        Seq::empty()
    }
}

/// The family name a query carries: the family that was given, followed by
/// what the typeface hint adds to it. The family itself is always kept; where
/// none was given the query names none, whatever the hint.
pub open spec fn family_for(typeface_caps: Option<Seq<char>>, family: Option<Seq<char>>) -> Seq<
    char,
> {
    match family {
        None => Seq::empty(),
        Some(name) => name + family_suffix(typeface_caps),
    }
}

/// The query that stands for a typeface hint and a style, both already in
/// upper case, and a family name.
pub open spec fn query_for(
    typeface_caps: Option<Seq<char>>,
    family: Option<Seq<char>>,
    style_caps: Option<Seq<char>>,
) -> QueryModel {
    QueryModel {
        bold: mentions(style_caps, "BOLD"@),
        italic: mentions(style_caps, "ITALIC"@),
        oblique: mentions(style_caps, "OBLIQUE"@),
        monospace: mentions(typeface_caps, "MONO"@),
        family: family_for(typeface_caps, family),
    }
}

/// Without a style a query is neither bold nor italic nor oblique, whatever
/// the typeface and family.
pub proof fn lemma_no_style_no_flags(typeface_caps: Option<Seq<char>>, family: Option<Seq<char>>)
    ensures
        !query_for(typeface_caps, family, None).bold,
        !query_for(typeface_caps, family, None).italic,
        !query_for(typeface_caps, family, None).oblique,
{
}

/// A style that holds one of the words BOLD, ITALIC and OBLIQUE, wherever in
/// it, sets that flag; a typeface that holds MONO sets the monospace flag.
pub proof fn lemma_word_sets_flag(
    start: Seq<char>,
    end: Seq<char>,
    other: Option<Seq<char>>,
    family: Option<Seq<char>>,
)
    ensures
        query_for(other, family, Some(start + "BOLD"@ + end)).bold,
        query_for(other, family, Some(start + "ITALIC"@ + end)).italic,
        query_for(other, family, Some(start + "OBLIQUE"@ + end)).oblique,
        query_for(Some(start + "MONO"@ + end), family, other).monospace,
{
    lemma_occurs_between(start, "BOLD"@, end);
    lemma_occurs_between(start, "ITALIC"@, end);
    lemma_occurs_between(start, "OBLIQUE"@, end);
    lemma_occurs_between(start, "MONO"@, end);
}

/// Without a typeface hint a query is not monospaced and carries the family
/// as it was given, whatever the style.
pub proof fn lemma_no_typeface_plain_family(family: Seq<char>, style_caps: Option<Seq<char>>)
    ensures
        !query_for(None, Some(family), style_caps).monospace,
        query_for(None, Some(family), style_caps).family == family,
{
    assert(family + Seq::<char>::empty() =~= family);
}

/// No typeface hint and no style takes the family out of a query: the family
/// that was given opens the query's family name, and only "Serif" or "Sans"
/// may follow it. A hint that mentions neither leaves the family as given.
pub proof fn lemma_family_is_kept(
    typeface_caps: Option<Seq<char>>,
    family: Seq<char>,
    style_caps: Option<Seq<char>>,
)
    ensures
        ({
            let named = query_for(typeface_caps, Some(family), style_caps).family;
            &&& named.len() >= family.len()
            &&& named.subrange(0, family.len() as int) == family
            &&& named == family || named == family + "Serif"@ || named == family + "Sans"@
            &&& !mentions(typeface_caps, "SERIF"@) && !mentions(typeface_caps, "SANS"@) ==> named
                == family
        }),
{
    let named = query_for(typeface_caps, Some(family), style_caps).family;
    assert(family + Seq::<char>::empty() =~= family);
    assert(named.subrange(0, family.len() as int) =~= family);
}

/// The characters of an optional text.
fn hint_chars(text: Option<&str>) -> (chars: Option<Vec<char>>)
    ensures
        chars is Some == text is Some,
        chars matches Some(c) ==> text_of(text) == Some(c@),
{
    match text {
        Some(t) => Some(chars_of(t)),
        None => None,
    }
}

/// Whether the optional upper-cased hint mentions `word`.
fn hint_mentions(caps: &Option<Vec<char>>, word: &str) -> (found: bool)
    ensures
        found == (caps matches Some(c) && occurs_in(c@, word@)),
{
    match caps {
        Some(c) => contains_chars(c, &chars_of(word)),
        None => false,
    }
}

impl FontQuery {
    /// Builds the query for a typeface hint and a style that are already in
    /// upper case.
    pub fn from_caps(
        typeface_caps: Option<&str>,
        family: Option<&str>,
        style_caps: Option<&str>,
    ) -> (query: FontQuery)
        ensures
            query@ == query_for(text_of(typeface_caps), text_of(family), text_of(style_caps)),
    {
        let style: Option<Vec<char>> = hint_chars(style_caps);
        let typeface: Option<Vec<char>> = hint_chars(typeface_caps);
        let italic: bool = hint_mentions(&style, "ITALIC");
        let oblique: bool = hint_mentions(&style, "OBLIQUE");
        let bold: bool = hint_mentions(&style, "BOLD");
        let monospace: bool = hint_mentions(&typeface, "MONO");
        let mut name: String = String::new();
        if let Some(family) = family {
            name = String::from_str(family);
            if hint_mentions(&typeface, "SERIF") {
                name.append("Serif");
            } else if hint_mentions(&typeface, "SANS") {
                name.append("Sans");
            } else {
                assert(family@ + Seq::<char>::empty() =~= family@);
            }
        }
        FontQuery { bold, italic, oblique, monospace, family: name }
    }
}

} // verus!
