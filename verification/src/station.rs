//! A radio station: a name to show and the address of its stream.

use vstd::prelude::*;

verus! {

#[derive(Debug, PartialEq, Eq)]
pub struct Station {
    pub name: String,
    pub url: String,
}

/// The contents of a [`Station`].
pub struct StationView {
    pub name: Seq<char>,
    pub url: Seq<char>,
}

impl View for Station {
    type V = StationView;

    open spec fn view(&self) -> StationView {
        StationView { name: self.name@, url: self.url@ }
    }
}

/// The contents of a list of stations, in the order of the list.
pub open spec fn station_views(stations: Seq<Station>) -> Seq<StationView> {
    Seq::new(stations.len(), |i: int| stations[i]@)
}

} // verus!
