//! Tracks as the provider describes them, and the short form that is shown.

use vstd::prelude::*;
use vstd::hash_map::StringHashMap;
use crate::clock::{elapsed_u32, seconds_u32};

verus! {

/// The address that the external links of an artist or a track give for
/// `site`, none where no link leads there. The provider keys the links of
/// one item by site.
pub open spec fn url_for(links: Map<Seq<char>, Seq<char>>, site: Seq<char>) -> Option<Seq<char>> {
    if links.contains_key(site) {
        Some(links[site])
    } else {
        None
    }
}

/// The mathematical content of a set of external links: the address under
/// each site.
pub open spec fn links_view(links: StringHashMap<String>) -> Map<Seq<char>, Seq<char>> {
    links@.map_values(|url: String| url@)
}

/// Looks up the address that a set of external links gives for `site`.
pub fn find_url(links: &StringHashMap<String>, site: &str) -> (found: Option<String>)
    ensures
        found.deep_view() == url_for(links_view(*links), site@),
{
    match links.get(site) {
        Some(url) => Some(url.clone()),
        None => None,
    }
}

/// An artist as the provider describes one on a track.
pub struct ArtistRecord {
    pub name: String,
    pub external_urls: StringHashMap<String>,
}

/// The mathematical content of an [`ArtistRecord`].
pub struct ArtistRecordView {
    pub name: Seq<char>,
    pub external_urls: Map<Seq<char>, Seq<char>>,
}

impl View for ArtistRecord {
    type V = ArtistRecordView;

    open spec fn view(&self) -> ArtistRecordView {
        ArtistRecordView { name: self.name@, external_urls: links_view(self.external_urls) }
    }
}

impl DeepView for ArtistRecord {
    type V = ArtistRecordView;

    open spec fn deep_view(&self) -> ArtistRecordView {
        self@
    }
}

/// A track as the provider describes it in full: its name, its artists, the
/// addresses of its album's cover images in the provider's order, its
/// external links and its length in milliseconds.
pub struct TrackRecord {
    pub name: String,
    pub artists: Vec<ArtistRecord>,
    pub album_images: Vec<String>,
    pub external_urls: StringHashMap<String>,
    pub duration_ms: i64,
}

/// The mathematical content of a [`TrackRecord`].
pub struct TrackRecordView {
    pub name: Seq<char>,
    pub artists: Seq<ArtistRecordView>,
    pub album_images: Seq<Seq<char>>,
    pub external_urls: Map<Seq<char>, Seq<char>>,
    pub duration_ms: i64,
}

impl View for TrackRecord {
    type V = TrackRecordView;

    open spec fn view(&self) -> TrackRecordView {
        TrackRecordView {
            name: self.name@,
            artists: self.artists.deep_view(),
            album_images: self.album_images.deep_view(),
            external_urls: links_view(self.external_urls),
            duration_ms: self.duration_ms,
        }
    }
}

/// An artist in short: the name and the link to the artist's page.
#[derive(Clone, Debug, PartialEq, Eq)]
pub struct Artist {
    pub name: String,
    pub url: Option<String>,
}

/// The mathematical content of an [`Artist`].
pub struct ArtistView {
    pub name: Seq<char>,
    pub url: Option<Seq<char>>,
}

impl View for Artist {
    type V = ArtistView;

    open spec fn view(&self) -> ArtistView {
        ArtistView { name: self.name@, url: self.url.deep_view() }
    }
}

impl DeepView for Artist {
    type V = ArtistView;

    open spec fn deep_view(&self) -> ArtistView {
        self@
    }
}

/// A track in short: name, artists, cover image, link to its page and
/// length in whole seconds.
#[derive(Clone, Debug, PartialEq, Eq)]
pub struct Track {
    pub name: String,
    pub artists: Vec<Artist>,
    pub image_url: Option<String>,
    pub url: Option<String>,
    pub duration: u32,
}

/// The mathematical content of a [`Track`].
pub struct TrackView {
    pub name: Seq<char>,
    pub artists: Seq<ArtistView>,
    pub image_url: Option<Seq<char>>,
    pub url: Option<Seq<char>>,
    pub duration: u32,
}

impl View for Track {
    type V = TrackView;

    open spec fn view(&self) -> TrackView {
        TrackView {
            name: self.name@,
            artists: self.artists.deep_view(),
            image_url: self.image_url.deep_view(),
            url: self.url.deep_view(),
            duration: self.duration,
        }
    }
}

/// The site whose links are shown.
pub open spec fn link_site() -> Seq<char> {
    "spotify"@
}

impl ArtistRecordView {
    /// The short form of the artist: the name, and the link that the record
    /// gives for the shown site.
    pub open spec fn simplified(self) -> ArtistView {
        ArtistView { name: self.name, url: url_for(self.external_urls, link_site()) }
    }
}

impl TrackRecordView {
    /// The short form of the track: its name, its artists in their order
    /// and in short, the first cover image, the link that the record gives
    /// for the shown site, and the whole seconds of its length.
    pub open spec fn simplified(self) -> TrackView
        recommends
            self.album_images.len() > 0,
    {
        TrackView {
            name: self.name,
            artists: Seq::new(self.artists.len(), |i: int| self.artists[i].simplified()),
            image_url: Some(self.album_images[0]),
            url: url_for(self.external_urls, link_site()),
            duration: seconds_u32(self.duration_ms),
        }
    }
}

impl Artist {
    /// Puts an artist in short.
    pub fn simplify_artist(artist: &ArtistRecord) -> (short: Artist)
        ensures
            short@ == artist@.simplified(),
    {
        Artist { name: artist.name.clone(), url: find_url(&artist.external_urls, "spotify") }
    }
}

impl Track {
    /// Puts a track in short. The record names at least one cover image.
    pub fn simplify_track(full_track: &TrackRecord) -> (track: Track)
        requires
            full_track.album_images.len() > 0,
        ensures
            track@ == full_track@.simplified(),
    {
        let mut artists: Vec<Artist> = Vec::new();
        let mut i: usize = 0;
        while i < full_track.artists.len()
            invariant
                i <= full_track.artists.len(),
                artists.len() == i,
                forall|k: int|
                    0 <= k < i ==> (#[trigger] artists[k])@ == full_track.artists[k]@.simplified(),
            decreases full_track.artists.len() - i,
        {
            artists.push(Artist::simplify_artist(&full_track.artists[i]));
            i = i + 1;
        }
        let track = Track {
            name: full_track.name.clone(),
            artists,
            image_url: Some(full_track.album_images[0].clone()),
            url: find_url(&full_track.external_urls, "spotify"),
            duration: elapsed_u32(full_track.duration_ms),
        };
        assert(track@.artists =~= full_track@.simplified().artists);
        track
    }
}

} // verus!
