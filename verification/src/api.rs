//! The description of a radio station, as the station directory gives it.

use crate::text::{to_chars, trim_bounds, trimmed};
use vstd::prelude::*;
use vstd::string::*;

verus! {

/// One streamable station. The playback core only reads it.
#[derive(Debug, Clone, PartialEq, Eq)]
pub struct Station {
    /// The directory's identifier of the station.
    pub stationuuid: String,
    /// The name shown to the listener.
    pub name: String,
    /// The stream URL as registered.
    pub url: String,
    /// The stream URL after the directory followed redirects and playlists.
    pub url_resolved: String,
    /// The station's web site; empty where unknown.
    pub homepage: String,
    /// The station's artwork; empty where unknown.
    pub favicon: String,
    /// Comma-separated tags; empty where there are none.
    pub tags: String,
    pub country: String,
    pub language: String,
}

impl Station {
    /// Whether `other` is this station: the directory's identifier decides.
    pub fn same_station(&self, other: &Station) -> (r: bool)
        ensures
            r == (self.stationuuid@ == other.stationuuid@),
    {
        self.stationuuid == other.stationuuid
    }

    /// Whether every field is the empty string.
    pub open spec fn is_blank(&self) -> bool {
        &&& self.stationuuid@.len() == 0
        &&& self.name@.len() == 0
        &&& self.url@.len() == 0
        &&& self.url_resolved@.len() == 0
        &&& self.homepage@.len() == 0
        &&& self.favicon@.len() == 0
        &&& self.tags@.len() == 0
        &&& self.country@.len() == 0
        &&& self.language@.len() == 0
    }
}

impl Default for Station {
    /// A station with every field empty.
    fn default() -> (s: Self)
        ensures
            s.is_blank(),
    {
        Station {
            stationuuid: String::new(),
            name: String::new(),
            url: String::new(),
            url_resolved: String::new(),
            homepage: String::new(),
            favicon: String::new(),
            tags: String::new(),
            country: String::new(),
            language: String::new(),
        }
    }
}

/// The directory's search address for `query`, or `None` where the query is
/// blank and nothing is to be asked. The query goes into the address as it
/// was typed.
pub open spec fn search_url_spec(query: Seq<char>) -> Option<Seq<char>> {
    if trimmed(query).len() == 0 {
        None
    } else {
        Some(
            "https://de1.api.radio-browser.info/json/stations/search?name="@ + query
                + "&limit=20"@,
        )
    }
}

/// The directory's search address for `query`: at most twenty stations whose
/// name holds the query. A blank query has none, and its search has no
/// results.
pub fn search_url(query: &str) -> (url: Option<String>)
    ensures
        match url {
            Some(u) => search_url_spec(query@) == Some(u@),
            None => search_url_spec(query@) is None,
        },
{
    let chars = to_chars(query);
    let (from, to) = trim_bounds(&chars, 0, chars.len());
    assert(chars@.subrange(0, chars.len() as int) =~= query@);
    if from == to {
        return None;
    }
    let mut url = String::from_str("https://de1.api.radio-browser.info/json/stations/search?name=");
    url.append(query);
    url.append("&limit=20");
    Some(url)
}

} // verus!
