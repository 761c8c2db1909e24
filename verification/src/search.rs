//! Finding a font by typeface, family and style: the fixed path of embedded
//! targets, and the decisions of the search through a system font index.

use vstd::prelude::*;
use vstd::string::StringExecFns;
use crate::font::{font_count, vec_holds_face, Font, PARSE_FAILURE};
use crate::query::{
    caps_of, lemma_family_is_kept, lemma_no_typeface_plain_family, query_for, text_of, FontQuery,
    QueryModel,
};

verus! {

/// The font that is loaded when the index knows no match.
pub const FALLBACK_FONT: &'static str =
    "/usr/share/fonts/truetype/liberation/LiberationMono-Regular.ttf";

/// The given text, or `default` where none is given.
pub open spec fn or_default(text: Option<Seq<char>>, default: Seq<char>) -> Seq<char> {
    match text {
        Some(t) => t,
        None => default,
    }
}

/// Where an embedded target keeps the font of a typeface, family and style.
pub open spec fn embedded_path(
    typeface: Option<Seq<char>>,
    family: Option<Seq<char>>,
    style: Option<Seq<char>>,
) -> Seq<char> {
    "/ui/fonts/"@ + or_default(typeface, "Mono"@) + "/"@ + or_default(family, "Fira"@) + "/"@
        + or_default(style, "Regular"@) + ".ttf"@
}

/// Builds the path of a font on an embedded target. A missing typeface is
/// "Mono", a missing family "Fira", a missing style "Regular".
pub fn embedded_font_path(
    typeface: Option<&str>,
    family: Option<&str>,
    style: Option<&str>,
) -> (path: String)
    ensures
        path@ == embedded_path(text_of(typeface), text_of(family), text_of(style)),
{
    let typeface: &str = match typeface {
        Some(t) => t,
        None => "Mono",
    };
    let family: &str = match family {
        Some(f) => f,
        None => "Fira",
    };
    let style: &str = match style {
        Some(s) => s,
        None => "Regular",
    };
    let mut path: String = String::from_str("/ui/fonts/");
    path.append(typeface);
    path.append("/");
    path.append(family);
    path.append("/");
    path.append(style);
    path.append(".ttf");
    path
}

/// The view of an optional owned text.
pub open spec fn owned_text(text: Option<String>) -> Option<Seq<char>> {
    match text {
        Some(t) => Some(t@),
        None => None,
    }
}

/// A search through the system font index, waiting for the answer to
/// `query`.
#[derive(Clone, Debug)]
pub struct Search {
    /// The query that is to be put to the index.
    pub query: FontQuery,
    /// The family and style that were asked for.
    pub family: Option<String>,
    pub style: Option<String>,
    /// Whether this is the second query, made without the typeface hint.
    pub retried: bool,
}

/// The mathematical content of a [`Search`].
pub struct SearchModel {
    pub query: QueryModel,
    pub family: Option<Seq<char>>,
    pub style: Option<Seq<char>>,
    pub retried: bool,
}

impl View for Search {
    type V = SearchModel;

    open spec fn view(&self) -> SearchModel {
        SearchModel {
            query: self.query@,
            family: owned_text(self.family),
            style: owned_text(self.style),
            retried: self.retried,
        }
    }
}

/// What to do once the index has answered a query.
#[derive(Clone, Debug)]
pub enum Next {
    /// A font matched: fetch the bytes the index holds for `query`. `name` is
    /// the first match.
    Fetch { query: FontQuery, name: String },
    /// Nothing matched: put the query of this search to the index.
    Ask(Search),
    /// Nothing matched twice: load the file at this path.
    Load(String),
}

/// The mathematical content of a [`Next`].
pub enum NextModel {
    Fetch { query: QueryModel, name: Seq<char> },
    Ask(SearchModel),
    Load(Seq<char>),
}

impl View for Next {
    type V = NextModel;

    open spec fn view(&self) -> NextModel {
        match self {
            Next::Fetch { query, name } => NextModel::Fetch { query: query@, name: name@ },
            Next::Ask(search) => NextModel::Ask(search@),
            Next::Load(path) => NextModel::Load(path@),
        }
    }
}

/// The first search for a typeface, family and style: its query carries the
/// typeface hint.
pub open spec fn first_search(
    typeface: Option<Seq<char>>,
    family: Option<Seq<char>>,
    style: Option<Seq<char>>,
) -> SearchModel {
    SearchModel {
        query: query_for(caps_of(typeface), family, caps_of(style)),
        family,
        style,
        retried: false,
    }
}

/// The step after the index answered with the names `matches`. A match is
/// fetched. Without a match the first search is repeated without the typeface
/// hint, and the second gives way to the fallback font.
pub open spec fn next_step(search: SearchModel, matches: Seq<Seq<char>>) -> NextModel {
    if matches.len() > 0 {
        NextModel::Fetch { query: search.query, name: matches[0] }
    } else if !search.retried {
        NextModel::Ask(
            SearchModel {
                query: query_for(None, search.family, caps_of(search.style)),
                family: search.family,
                style: search.style,
                retried: true,
            },
        )
    } else {
        NextModel::Load(FALLBACK_FONT@)
    }
}

/// A search asks the index at most twice: what follows a second query is
/// never a third. And the second query is the first without its typeface
/// hint: same style flags, not monospaced, the family as it was given.
pub proof fn lemma_search_ends(
    typeface: Option<Seq<char>>,
    family: Option<Seq<char>>,
    style: Option<Seq<char>>,
    first_answer: Seq<Seq<char>>,
    second_answer: Seq<Seq<char>>,
)
    ensures
        next_step(first_search(typeface, family, style), first_answer) matches NextModel::Ask(
            second,
        ) ==> {
            &&& first_answer.len() == 0
            &&& second.query == query_for(None, family, caps_of(style))
            &&& !second.query.monospace
            &&& second.query.family == or_default(family, Seq::empty())
            &&& !(next_step(second, second_answer) is Ask)
            &&& second_answer.len() == 0 ==> next_step(second, second_answer) == NextModel::Load(
                FALLBACK_FONT@,
            )
        },
        first_answer.len() > 0 ==> next_step(first_search(typeface, family, style), first_answer)
            == (NextModel::Fetch {
            query: query_for(caps_of(typeface), family, caps_of(style)),
            name: first_answer[0],
        }),
{
}

/// No query of a search loses the family: the first names the family that was
/// given, followed at most by "Serif" or "Sans", and the second names it as
/// it was given.
pub proof fn lemma_search_keeps_family(
    typeface: Option<Seq<char>>,
    family: Seq<char>,
    style: Option<Seq<char>>,
    answer: Seq<Seq<char>>,
)
    ensures
        ({
            let first = first_search(typeface, Some(family), style);
            &&& first.query.family.len() >= family.len()
            &&& first.query.family.subrange(0, family.len() as int) == family
            &&& next_step(first, answer) matches NextModel::Ask(second) ==> second.query.family
                == family
            &&& next_step(first, answer) matches NextModel::Fetch { query, .. } ==> query
                == first.query
        }),
{
    lemma_family_is_kept(caps_of(typeface), family, caps_of(style));
    lemma_no_typeface_plain_family(family, caps_of(style));
}

/// The names of an answer of the index, as texts.
pub open spec fn names_of(matches: Seq<String>) -> Seq<Seq<char>> {
    matches.map_values(|name: String| name@)
}

/// An owned copy of an optional text.
fn keep(text: Option<&str>) -> (kept: Option<String>)
    ensures
        owned_text(kept) == text_of(text),
{
    match text {
        Some(t) => Some(String::from_str(t)),
        None => None,
    }
}

impl Search {
    /// Starts the search for a typeface, family and style.
    pub fn begin(
        typeface: Option<&str>,
        family: Option<&str>,
        style: Option<&str>,
    ) -> (search: Search)
        ensures
            search@ == first_search(text_of(typeface), text_of(family), text_of(style)),
    {
        Search {
            query: Font::build_fontproperty(typeface, family, style),
            family: keep(family),
            style: keep(style),
            retried: false,
        }
    }

    /// Decides what follows the answer of the index to this search's query.
    pub fn on_matches(self, matches: &Vec<String>) -> (next: Next)
        ensures
            next@ == next_step(self@, names_of(matches@)),
    {
        if matches.len() > 0 {
            Next::Fetch { query: self.query, name: matches[0].clone() }
        } else if !self.retried {
            let family: Option<&str> = match &self.family {
                Some(f) => Some(f.as_str()),
                None => None,
            };
            let style: Option<&str> = match &self.style {
                Some(s) => Some(s.as_str()),
                None => None,
            };
            let query: FontQuery = Font::build_fontproperty(None, family, style);
            Next::Ask(Search { query, family: self.family, style: self.style, retried: true })
        } else {
            Next::Load(String::from_str(FALLBACK_FONT))
        }
    }
}

/// The complaint about a match whose bytes the index did not return.
pub open spec fn fetch_failure(name: Seq<char>) -> Seq<char> {
    "Could not get font "@ + name + " from data"@
}

impl Font {
    /// Loads the font that the index matched under `name` from the bytes it
    /// returned for it, if it returned any.
    pub fn from_fetched(name: &str, data: Option<Vec<u8>>) -> (loaded: Result<Font, String>)
        ensures
            loaded is Ok <==> (data matches Some(bytes) && font_count(bytes@) == 1
                && vec_holds_face(bytes@)),
            loaded matches Ok(font) ==> data matches Some(bytes) && font.source() == bytes@,
            loaded matches Err(reason) ==> reason@ == (match data {
                Some(_) => PARSE_FAILURE@,
                None => fetch_failure(name@),
            }),
    {
        match data {
            Some(bytes) => Font::from_vec(bytes),
            None => {
                let mut reason: String = String::from_str("Could not get font ");
                reason.append(name);
                reason.append(" from data");
                Err(reason)
            },
        }
    }
}

} // verus!
