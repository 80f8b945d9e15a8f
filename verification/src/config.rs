//! What the client remembers between runs.

use crate::api::Station;
use vstd::prelude::*;

verus! {

/// The volume a fresh configuration starts with.
pub const DEFAULT_VOLUME: u8 = 50;

/// Favourite stations and the last volume, in percent.
#[derive(Debug, Clone, PartialEq, Eq)]
pub struct Config {
    pub favorites: Vec<Station>,
    /// 0 to 100.
    pub volume: u8,
}

impl Default for Config {
    /// No favourites, half volume.
    fn default() -> (c: Self)
        ensures
            c.favorites@.len() == 0,
            c.volume == DEFAULT_VOLUME,
    {
        Config { favorites: Vec::new(), volume: DEFAULT_VOLUME }
    }
}

/// Whether `index` is the first place in `favorites` at which the station
/// with identifier `id` stands.
pub open spec fn is_first_place(favorites: Seq<Station>, id: Seq<char>, index: int) -> bool {
    &&& 0 <= index < favorites.len()
    &&& favorites[index].stationuuid@ == id
    &&& forall|j: int| 0 <= j < index ==> (#[trigger] favorites[j]).stationuuid@ != id
}

/// Whether the station with identifier `id` is among `favorites`.
pub open spec fn holds_station(favorites: Seq<Station>, id: Seq<char>) -> bool {
    exists|i: int| 0 <= i < favorites.len() && (#[trigger] favorites[i]).stationuuid@ == id
}

impl Config {
    /// The first place among the favourites at which `station` stands.
    pub fn favorite_position(&self, station: &Station) -> (r: Option<usize>)
        ensures
            match r {
                Some(i) => is_first_place(self.favorites@, station.stationuuid@, i as int),
                None => !holds_station(self.favorites@, station.stationuuid@),
            },
    {
        let mut i: usize = 0;
        while i < self.favorites.len()
            invariant
                i <= self.favorites.len(),
                forall|j: int|
                    0 <= j < i ==> (#[trigger] self.favorites@[j]).stationuuid@
                        != station.stationuuid@,
            decreases self.favorites.len() - i,
        {
            if self.favorites[i].same_station(station) {
                return Some(i);
            }
            i += 1;
        }
        None
    }

    /// Whether `station` is a favourite.
    pub fn is_favorite(&self, station: &Station) -> (r: bool)
        ensures
            r == holds_station(self.favorites@, station.stationuuid@),
    {
        self.favorite_position(station).is_some()
    }

    /// Makes `station` a favourite where it is none, and takes it off the
    /// favourites where it is one: there its first entry goes, and the others
    /// keep their order. A new favourite goes to the end. Returns whether
    /// the station is a favourite afterwards. The volume stays as it is.
    pub fn toggle_favorite(&mut self, station: Station) -> (added: bool)
        ensures
            final(self).volume == old(self).volume,
            added == !holds_station(old(self).favorites@, station.stationuuid@),
            added ==> final(self).favorites@ == old(self).favorites@.push(station),
            !added ==> exists|i: int|
                #![trigger old(self).favorites@[i]]
                is_first_place(old(self).favorites@, station.stationuuid@, i)
                    && final(self).favorites@ == old(self).favorites@.remove(i),
    {
        match self.favorite_position(&station) {
            Some(position) => {
                self.favorites.remove(position);
                false
            },
            None => {
                self.favorites.push(station);
                true
            },
        }
    }
}

/// Toggling a station that is no favourite, and then toggling it again,
/// gives the favourites back as they were: after the first toggle the
/// station's first place is the last one, and removing it there undoes the
/// push.
pub proof fn lemma_toggle_twice_restores(favorites: Seq<Station>, station: Station)
    requires
        !holds_station(favorites, station.stationuuid@),
    ensures
        holds_station(favorites.push(station), station.stationuuid@),
        forall|i: int|
            is_first_place(favorites.push(station), station.stationuuid@, i) ==> i
                == favorites.len() && #[trigger] favorites.push(station).remove(i) == favorites,
{
    let grown = favorites.push(station);
    assert(grown[favorites.len() as int].stationuuid@ == station.stationuuid@);
    assert forall|i: int| is_first_place(grown, station.stationuuid@, i) implies i
        == favorites.len() && #[trigger] grown.remove(i) == favorites by {
        if i < favorites.len() {
            assert(grown[i] == favorites[i]);
        }
        assert(grown.remove(favorites.len() as int) =~= favorites);
    }
}

} // verus!
