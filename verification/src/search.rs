//! Search-query parsing and the data carried by search results.

use vstd::prelude::*;
use crate::strutil::{spec_trim, trim_chars};
use crate::timeutil::now_unix_seconds;

verus! {

/// The category a search result belongs to.
#[derive(Debug, Clone, Copy, PartialEq, Eq, Structural)]
pub enum SearchKind {
    DM,
    Channel,
    Voice,
    Forum,
    Thread,
    Guild,
}

/// What [`SearchKind::label`] returns for each variant.
pub open spec fn spec_kind_label(k: SearchKind) -> Seq<char> {
    match k {
        SearchKind::DM => "DM"@,
        SearchKind::Channel => "Channel"@,
        SearchKind::Voice => "Voice"@,
        SearchKind::Forum => "Forum"@,
        SearchKind::Thread => "Thread"@,
        SearchKind::Guild => "Guild"@,
    }
}

impl SearchKind {
    /// Human-readable name of the category.
    pub fn label(&self) -> (r: &'static str)
        ensures
            r@ == spec_kind_label(*self),
    {
        match self {
            SearchKind::DM => "DM",
            SearchKind::Channel => "Channel",
            SearchKind::Voice => "Voice",
            SearchKind::Forum => "Forum",
            SearchKind::Thread => "Thread",
            SearchKind::Guild => "Guild",
        }
    }
}

/// One entry produced by a search provider.
#[derive(Debug)]
pub struct SearchResult {
    pub id: String,
    pub name: String,
    pub kind: SearchKind,
    pub guild_id: Option<String>,
    pub guild_name: Option<String>,
    pub parent_name: Option<String>,
    pub score: i64,
}

impl Clone for SearchResult {
    /// A field-for-field copy.
    fn clone(&self) -> (r: SearchResult)
        ensures
            r == *self,
    {
        SearchResult {
            id: self.id.clone(),
            name: self.name.clone(),
            kind: self.kind,
            guild_id: match &self.guild_id {
                Some(g) => Some(g.clone()),
                None => None,
            },
            guild_name: match &self.guild_name {
                Some(g) => Some(g.clone()),
                None => None,
            },
            parent_name: match &self.parent_name {
                Some(p) => Some(p.clone()),
                None => None,
            },
            score: self.score,
        }
    }
}

impl SearchResult {
    /// A result with the given identity and category and no optional data.
    pub fn new(id: &str, name: &str, kind: SearchKind) -> (r: SearchResult)
        ensures
            r.id@ == id@,
            r.name@ == name@,
            r.kind == kind,
            r.guild_id is None,
            r.guild_name is None,
            r.parent_name is None,
            r.score == 0,
    {
        SearchResult {
            id: id.to_owned(),
            name: name.to_owned(),
            kind,
            guild_id: None,
            guild_name: None,
            parent_name: None,
            score: 0,
        }
    }

    /// The same result, annotated with the guild it belongs to.
    pub fn with_guild(self, id: &str, name: &str) -> (r: SearchResult)
        ensures
            r.guild_id matches Some(g) && g@ == id@,
            r.guild_name matches Some(g) && g@ == name@,
            r.id == self.id,
            r.name == self.name,
            r.kind == self.kind,
            r.parent_name == self.parent_name,
            r.score == self.score,
    {
        SearchResult { guild_id: Some(id.to_owned()), guild_name: Some(name.to_owned()), ..self }
    }

    /// The same result, annotated with the name of its parent channel.
    pub fn with_parent_name(self, name: &str) -> (r: SearchResult)
        ensures
            r.parent_name matches Some(p) && p@ == name@,
            r.id == self.id,
            r.name == self.name,
            r.kind == self.kind,
            r.guild_id == self.guild_id,
            r.guild_name == self.guild_name,
            r.score == self.score,
    {
        SearchResult { parent_name: Some(name.to_owned()), ..self }
    }

    /// The same result with its relevance score replaced.
    pub fn with_score(self, score: i64) -> (r: SearchResult)
        ensures
            r.score == score,
            r.id == self.id,
            r.name == self.name,
            r.kind == self.kind,
            r.guild_id == self.guild_id,
            r.guild_name == self.guild_name,
            r.parent_name == self.parent_name,
    {
        SearchResult { score, ..self }
    }
}

/// A provider answering free-text queries; implemented by collaborators
/// outside this library.
pub trait SearchProvider {
    fn search(&self, query: &str) -> Vec<SearchResult>;
}

/// The sigil a query may start with to restrict the search.
#[derive(Debug, Clone, Copy, PartialEq, Eq, Structural)]
pub enum SearchPrefix {
    Guild,
    User,
    Text,
    Voice,
    Thread,
    Plain,
}

/// Which prefix, if any, a sigil character selects.
pub open spec fn spec_prefix_of(c: char) -> Option<SearchPrefix> {
    if c == '*' {
        Some(SearchPrefix::Guild)
    } else if c == '@' {
        Some(SearchPrefix::User)
    } else if c == '#' {
        Some(SearchPrefix::Text)
    } else if c == '!' {
        Some(SearchPrefix::Voice)
    } else if c == '^' {
        Some(SearchPrefix::Thread)
    } else {
        None
    }
}

impl SearchPrefix {
    /// The prefix selected by a sigil character, if it is one.
    pub fn from_char(c: char) -> (r: Option<SearchPrefix>)
        ensures
            r == spec_prefix_of(c),
    {
        match c {
            '*' => Some(SearchPrefix::Guild),
            '@' => Some(SearchPrefix::User),
            '#' => Some(SearchPrefix::Text),
            '!' => Some(SearchPrefix::Voice),
            '^' => Some(SearchPrefix::Thread),
            _ => None,
        }
    }
}

/// Splits a query into its restriction prefix and the bare search text:
/// the query is trimmed; if it then starts with a sigil character, that
/// sigil is the prefix and the rest (trimmed again) is the text.
pub fn parse_search_query(query: &str) -> (r: (SearchPrefix, &str))
    ensures
        ({
            let t = spec_trim(query@);
            if t.len() > 0 && spec_prefix_of(t[0]) is Some {
                r.0 == spec_prefix_of(t[0]).unwrap() && r.1@ == spec_trim(
                    t.subrange(1, t.len() as int),
                )
            } else {
                r.0 == SearchPrefix::Plain && r.1@ == t
            }
        }),
{
    let trimmed = trim_chars(query);
    let n: usize = trimmed.unicode_len();
    if n > 0 {
        let c = trimmed.get_char(0);
        if let Some(prefix) = SearchPrefix::from_char(c) {
            let rest = trimmed.substring_char(1, n);
            return (prefix, trim_chars(rest));
        }
    }
    (SearchPrefix::Plain, trimmed)
}

/// A recently visited search result, remembered with the time of the visit.
#[derive(Debug, Clone)]
pub struct RecentItem {
    pub id: String,
    pub name: String,
    pub kind: SearchKind,
    pub guild_id: Option<String>,
    pub timestamp: i64,
}

impl RecentItem {
    /// Remembers `result` as visited now; the timestamp is the current
    /// wall-clock reading.
    pub fn new(result: &SearchResult) -> (r: RecentItem)
        ensures
            r.id == result.id,
            r.name == result.name,
            r.kind == result.kind,
            r.guild_id == result.guild_id,
    {
        RecentItem {
            id: result.id.clone(),
            name: result.name.clone(),
            kind: result.kind,
            guild_id: result.guild_id.clone(),
            timestamp: now_unix_seconds(),
        }
    }
}

} // verus!
