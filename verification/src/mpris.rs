//! The bridge to the desktop's media-control service: the messages that cross
//! it, the metadata shown for a station, and what each state update changes on
//! the service's surface.

use crate::api::Station;
use crate::text::{push_char, split_trimmed, split_trimmed_spec, texts, to_chars};
use crate::volume::{clamp_level, clamped};
use vstd::prelude::*;
use vstd::string::*;

verus! {

/// `tokio::sync::mpsc::UnboundedSender`, the sending half of an unbounded
/// channel. The library only carries it.
#[verifier::external_type_specification]
#[verifier::external_body]
#[verifier::reject_recursive_types(T)]
pub struct ExUnboundedSender<T>(tokio::sync::mpsc::UnboundedSender<T>);

/// `Clone::clone` of `tokio::sync::mpsc::UnboundedSender`: another sender
/// into the same channel. Nothing is claimed of it.
pub assume_specification<T>[ <tokio::sync::mpsc::UnboundedSender<T> as Clone>::clone ](
    sender: &tokio::sync::mpsc::UnboundedSender<T>,
) -> (r: tokio::sync::mpsc::UnboundedSender<T>)
;

/// A command that a client of the media-control service gave. `V` is the
/// service's own measure of volume, a fraction of full volume; the library
/// carries it and never computes with it.
#[derive(Debug, Clone)]
pub enum MprisCommand<V> {
    Play,
    Pause,
    PlayPause,
    Stop,
    SetVolume(V),
    Raise,
    Quit,
}

/// A change of the application's playback state, for the service to show.
#[derive(Debug, Clone)]
pub enum MprisStateUpdate {
    Playing { station: Box<Station> },
    Stopped,
    /// The volume in percent.
    Volume(u8),
}

/// What the bridge hands to the application.
#[derive(Debug, Clone)]
pub enum MprisEvent<V> {
    /// The service thread runs; state updates go to this sender.
    Ready(tokio::sync::mpsc::UnboundedSender<MprisStateUpdate>),
    /// A client gave a command.
    Command(MprisCommand<V>),
}

/// The metadata that the service shows for the station that plays.
#[derive(Debug, Clone)]
pub struct TrackMetadata {
    pub title: String,
    /// The track's object path.
    pub track_id: Option<String>,
    pub art_url: Option<String>,
    pub url: Option<String>,
    pub genres: Option<Vec<String>>,
}

/// [`TrackMetadata`] as texts.
pub ghost struct TrackMetadataView {
    pub title: Seq<char>,
    pub track_id: Option<Seq<char>>,
    pub art_url: Option<Seq<char>>,
    pub url: Option<Seq<char>>,
    pub genres: Option<Seq<Seq<char>>>,
}

/// The text of an optional string.
pub open spec fn opt_text(s: Option<String>) -> Option<Seq<char>> {
    match s {
        Some(t) => Some(t@),
        None => None,
    }
}

impl TrackMetadata {
    pub open spec fn view(&self) -> TrackMetadataView {
        TrackMetadataView {
            title: self.title@,
            track_id: opt_text(self.track_id),
            art_url: opt_text(self.art_url),
            url: opt_text(self.url),
            genres: match self.genres {
                Some(g) => Some(texts(g@)),
                None => None,
            },
        }
    }
}

/// The characters that an element of an object path may hold.
pub open spec fn is_path_char(c: char) -> bool {
    ||| 'a' <= c <= 'z'
    ||| 'A' <= c <= 'Z'
    ||| '0' <= c <= '9'
    ||| c == '_'
}

/// `c` where an object path may hold it, an underscore in its place where
/// not.
pub open spec fn path_safe(c: char) -> char {
    if is_path_char(c) {
        c
    } else {
        '_'
    }
}

/// `id` with every character that an object path may not hold replaced by an
/// underscore.
pub open spec fn sanitized(id: Seq<char>) -> Seq<char> {
    Seq::new(id.len(), |i: int| path_safe(id[i]))
}

/// The object path under which all tracks stand.
pub open spec fn track_prefix() -> Seq<char> {
    "/org/mpris/MediaPlayer2/Track/"@
}

/// The object path of the track with identifier `id`.
pub open spec fn track_path(id: Seq<char>) -> Seq<char> {
    track_prefix() + sanitized(id)
}

/// A well-formed object path: it starts with a slash, its elements hold
/// letters, digits and underscores only, none of them is empty, and only the
/// root path ends in a slash.
pub open spec fn is_object_path(p: Seq<char>) -> bool {
    &&& p.len() >= 1
    &&& p[0] == '/'
    &&& p.len() > 1 ==> p.last() != '/'
    &&& forall|i: int| 0 <= i < p.len() ==> is_path_char(#[trigger] p[i]) || p[i] == '/'
    &&& forall|i: int| 0 <= i < p.len() - 1 ==> !(#[trigger] p[i] == '/' && p[i + 1] == '/')
}

/// The metadata of a station: always its name; its track path, artwork,
/// home page and genres where the station has an identifier, a favicon, a
/// home page and tags. The genres are the tags between the commas, trimmed.
pub open spec fn metadata_of(station: Station) -> TrackMetadataView {
    TrackMetadataView {
        title: station.name@,
        track_id: if station.stationuuid@.len() > 0 {
            Some(track_path(station.stationuuid@))
        } else {
            None
        },
        art_url: if station.favicon@.len() > 0 {
            Some(station.favicon@)
        } else {
            None
        },
        url: if station.homepage@.len() > 0 {
            Some(station.homepage@)
        } else {
            None
        },
        genres: if station.tags@.len() > 0 {
            Some(split_trimmed_spec(station.tags@, ','))
        } else {
            None
        },
    }
}

fn path_char(c: char) -> (r: bool)
    ensures
        r == is_path_char(c),
{
    ('a' <= c && c <= 'z') || ('A' <= c && c <= 'Z') || ('0' <= c && c <= '9') || c == '_'
}

/// The object path of the track with identifier `id`.
pub fn track_path_of(id: &str) -> (path: String)
    ensures
        path@ == track_path(id@),
{
    let chars = to_chars(id);
    let mut path = String::from_str("/org/mpris/MediaPlayer2/Track/");
    let mut i: usize = 0;
    while i < chars.len()
        invariant
            i <= chars.len(),
            chars@ == id@,
            path@ == track_prefix() + sanitized(id@).take(i as int),
        decreases chars.len() - i,
    {
        let c = chars[i];
        if path_char(c) {
            push_char(&mut path, c);
        } else {
            push_char(&mut path, '_');
        }
        assert(sanitized(id@).take(i + 1) =~= sanitized(id@).take(i as int).push(
            path_safe(id@[i as int]),
        ));
        i += 1;
        assert(path@ =~= track_prefix() + sanitized(id@).take(i as int));
    }
    assert(sanitized(id@).take(i as int) =~= sanitized(id@));
    path
}

fn non_empty(s: &String) -> (r: Option<String>)
    ensures
        opt_text(r) == if s@.len() > 0 {
            Some(s@)
        } else {
            None
        },
{
    if s.as_str().is_empty() {
        None
    } else {
        Some(s.clone())
    }
}

/// Builds the metadata that the service shows for `station`.
pub fn build_metadata(station: &Station) -> (metadata: TrackMetadata)
    ensures
        metadata@ == metadata_of(*station),
{
    let track_id = if station.stationuuid.as_str().is_empty() {
        None
    } else {
        Some(track_path_of(station.stationuuid.as_str()))
    };
    let genres = if station.tags.as_str().is_empty() {
        None
    } else {
        Some(split_trimmed(station.tags.as_str(), ','))
    };
    TrackMetadata {
        title: station.name.clone(),
        track_id,
        art_url: non_empty(&station.favicon),
        url: non_empty(&station.homepage),
        genres,
    }
}

/// The track path of a station with an identifier is a well-formed object
/// path, whatever characters the identifier holds.
pub proof fn lemma_track_path_is_object_path(id: Seq<char>)
    requires
        id.len() > 0,
    ensures
        is_object_path(track_path(id)),
{
    reveal_strlit("/org/mpris/MediaPlayer2/Track/");
    let prefix = track_prefix();
    let p = track_path(id);
    assert(prefix.len() == 30);
    assert(p.len() == 30 + id.len());
    assert forall|i: int| 0 <= i < p.len() implies is_path_char(#[trigger] p[i]) || p[i] == '/' by {
        if i >= 30 {
            assert(p[i] == path_safe(id[i - 30]));
        } else {
            assert(p[i] == prefix[i]);
        }
    }
    assert forall|i: int| 0 <= i < p.len() - 1 implies !(#[trigger] p[i] == '/' && p[i + 1]
        == '/') by {
        if i >= 29 {
            assert(p[i + 1] == path_safe(id[i + 1 - 30]));
        } else {
            assert(p[i] == prefix[i]);
            assert(p[i + 1] == prefix[i + 1]);
        }
    }
    assert(p.last() == path_safe(id[id.len() - 1]));
    assert(p[0] == prefix[0]);
}

/// Whether the service shows a track as playing.
#[derive(Debug, Clone, Copy, PartialEq, Eq, Structural)]
pub enum PlaybackStatus {
    Playing,
    Paused,
    Stopped,
}

/// One change to what the service shows.
#[derive(Debug, Clone)]
pub enum PropertyChange {
    /// Show this metadata for the current track.
    Metadata(TrackMetadata),
    /// Show this playback status.
    Status(PlaybackStatus),
    /// Show this volume: hundredths of full volume, at most 100.
    Volume(u8),
}

/// A [`PropertyChange`] as texts.
pub ghost enum PropertyChangeView {
    Metadata(TrackMetadataView),
    Status(PlaybackStatus),
    Volume(u8),
}

impl PropertyChange {
    pub open spec fn view(&self) -> PropertyChangeView {
        match self {
            PropertyChange::Metadata(m) => PropertyChangeView::Metadata(m@),
            PropertyChange::Status(s) => PropertyChangeView::Status(*s),
            PropertyChange::Volume(v) => PropertyChangeView::Volume(*v),
        }
    }
}

/// The views of a list of changes.
pub open spec fn change_views(changes: Seq<PropertyChange>) -> Seq<PropertyChangeView> {
    Seq::new(changes.len(), |i: int| changes[i]@)
}

/// What a state update changes on the service's surface, in the order in
/// which the changes are made: a playing station sets the metadata and then
/// the status; a stop sets the status; a volume sets the volume, brought into
/// range.
pub open spec fn reflected(update: MprisStateUpdate) -> Seq<PropertyChangeView> {
    match update {
        MprisStateUpdate::Playing { station } => seq![
            PropertyChangeView::Metadata(metadata_of(*station)),
            PropertyChangeView::Status(PlaybackStatus::Playing),
        ],
        MprisStateUpdate::Stopped => seq![PropertyChangeView::Status(PlaybackStatus::Stopped)],
        MprisStateUpdate::Volume(level) => seq![PropertyChangeView::Volume(clamped(level))],
    }
}

/// What `update` changes on the service's surface.
pub fn reflect(update: &MprisStateUpdate) -> (changes: Vec<PropertyChange>)
    ensures
        change_views(changes@) == reflected(*update),
{
    let mut changes: Vec<PropertyChange> = Vec::new();
    match update {
        MprisStateUpdate::Playing { station } => {
            changes.push(PropertyChange::Metadata(build_metadata(station)));
            changes.push(PropertyChange::Status(PlaybackStatus::Playing));
        },
        MprisStateUpdate::Stopped => {
            changes.push(PropertyChange::Status(PlaybackStatus::Stopped));
        },
        MprisStateUpdate::Volume(level) => {
            changes.push(PropertyChange::Volume(clamp_level(*level)));
        },
    }
    assert(change_views(changes@) =~= reflected(*update));
    changes
}

/// The changes that a run of state updates makes, in order: those of the
/// first update, then those of the next, and so on.
pub open spec fn reflected_all(updates: Seq<MprisStateUpdate>) -> Seq<PropertyChangeView>
    decreases updates.len(),
{
    if updates.len() == 0 {
        Seq::<PropertyChangeView>::empty()
    } else {
        reflected_all(updates.drop_last()) + reflected(updates.last())
    }
}

/// Every update is reflected, and in the order of issue: the changes of two
/// runs of updates, one after the other, are those of the first run followed
/// by those of the second.
pub proof fn lemma_reflection_keeps_order(first: Seq<MprisStateUpdate>, second: Seq<MprisStateUpdate>)
    ensures
        reflected_all(first + second) == reflected_all(first) + reflected_all(second),
    decreases second.len(),
{
    if second.len() == 0 {
        assert(first + second =~= first);
        assert(reflected_all(first) + reflected_all(second) =~= reflected_all(first));
    } else {
        lemma_reflection_keeps_order(first, second.drop_last());
        assert((first + second).drop_last() =~= first + second.drop_last());
        assert((first + second).last() == second.last());
        assert(reflected_all(first + second) =~= reflected_all(first) + reflected_all(second));
    }
}

/// A volume shown on the service's surface is never above 100 hundredths.
pub proof fn lemma_reflected_volume_in_range(level: u8)
    ensures
        reflected(MprisStateUpdate::Volume(level)) == seq![
            PropertyChangeView::Volume(clamped(level)),
        ],
        clamped(level) <= 100,
        level >= 100 ==> clamped(level) == 100,
{
}

/// How the player presents itself on the service, and what it offers.
#[derive(Debug, Clone, Copy)]
pub struct PlayerProfile {
    pub bus_name: &'static str,
    pub identity: &'static str,
    pub desktop_entry: &'static str,
    pub can_play: bool,
    pub can_pause: bool,
    pub can_control: bool,
    pub can_seek: bool,
    pub can_go_next: bool,
    pub can_go_previous: bool,
}

/// The player's profile: it can be played, paused and controlled, and it
/// declines seeking and skipping.
pub fn player_profile() -> (profile: PlayerProfile)
    ensures
        profile.bus_name@ == "cosmic_radio_applet"@,
        profile.identity@ == "COSMIC Radio"@,
        profile.desktop_entry@ == "com.marcos.RadioApplet"@,
        profile.can_play && profile.can_pause && profile.can_control,
        !profile.can_seek && !profile.can_go_next && !profile.can_go_previous,
{
    PlayerProfile {
        bus_name: "cosmic_radio_applet",
        identity: "COSMIC Radio",
        desktop_entry: "com.marcos.RadioApplet",
        can_play: true,
        can_pause: true,
        can_control: true,
        can_seek: false,
        can_go_next: false,
        can_go_previous: false,
    }
}

} // verus!
