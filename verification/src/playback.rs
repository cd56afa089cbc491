//! What the provider reports about playback, and the snapshot kept of it.

use vstd::prelude::*;
use crate::clock::{elapsed_u64, seconds_u64};

verus! {

/// Whether and what the provider repeats.
#[derive(Clone, Copy, Debug, PartialEq, Eq)]
pub enum RepeatState {
    Off,
    Track,
    Context,
}

/// The kind of an output device.
#[derive(Clone, Copy, Debug, PartialEq, Eq)]
pub enum DeviceType {
    Computer,
    Tablet,
    Smartphone,
    Smartwatch,
    Speaker,
    Tv,
    Avr,
    Stb,
    AudioDongle,
    GameConsole,
    CastVideo,
    CastAudio,
    Automobile,
    Unknown,
}

/// An output device as the provider describes it.
#[derive(Clone, Debug, PartialEq, Eq)]
pub struct Device {
    pub id: Option<String>,
    pub is_active: bool,
    pub is_private_session: bool,
    pub is_restricted: bool,
    pub name: String,
    pub device_type: DeviceType,
    pub volume_percent: Option<u32>,
}

/// The mathematical content of a [`Device`].
pub struct DeviceView {
    pub id: Option<Seq<char>>,
    pub is_active: bool,
    pub is_private_session: bool,
    pub is_restricted: bool,
    pub name: Seq<char>,
    pub device_type: DeviceType,
    pub volume_percent: Option<u32>,
}

impl View for Device {
    type V = DeviceView;

    open spec fn view(&self) -> DeviceView {
        DeviceView {
            id: self.id.deep_view(),
            is_active: self.is_active,
            is_private_session: self.is_private_session,
            is_restricted: self.is_restricted,
            name: self.name@,
            device_type: self.device_type,
            volume_percent: self.volume_percent,
        }
    }
}

/// What is being played: a track, whose identifier is missing when the file
/// is a local one, or a podcast episode.
#[derive(Clone, Debug, PartialEq, Eq)]
pub enum PlayableItem {
    /// A track and its identifier.
    Track(Option<String>),
    /// An episode and its identifier.
    Episode(String),
}

/// The mathematical content of a [`PlayableItem`].
pub enum PlayableItemView {
    Track(Option<Seq<char>>),
    Episode(Seq<char>),
}

impl View for PlayableItem {
    type V = PlayableItemView;

    open spec fn view(&self) -> PlayableItemView {
        match self {
            PlayableItem::Track(id) => PlayableItemView::Track(id.deep_view()),
            PlayableItem::Episode(id) => PlayableItemView::Episode(id@),
        }
    }
}

impl DeepView for PlayableItem {
    type V = PlayableItemView;

    open spec fn deep_view(&self) -> PlayableItemView {
        self@
    }
}

/// The provider's account of an active playback. Times are in
/// milliseconds.
#[derive(Clone, Debug, PartialEq, Eq)]
pub struct CurrentPlayback {
    pub device: Device,
    pub repeat_state: RepeatState,
    pub shuffle_state: bool,
    pub progress_ms: Option<i64>,
    pub is_playing: bool,
    pub item: Option<PlayableItem>,
}

/// The mathematical content of a [`CurrentPlayback`].
pub struct CurrentPlaybackView {
    pub device: DeviceView,
    pub repeat_state: RepeatState,
    pub shuffle_state: bool,
    pub progress_ms: Option<i64>,
    pub is_playing: bool,
    pub item: Option<PlayableItemView>,
}

impl View for CurrentPlayback {
    type V = CurrentPlaybackView;

    open spec fn view(&self) -> CurrentPlaybackView {
        CurrentPlaybackView {
            device: self.device@,
            repeat_state: self.repeat_state,
            shuffle_state: self.shuffle_state,
            progress_ms: self.progress_ms,
            is_playing: self.is_playing,
            item: self.item.deep_view(),
        }
    }
}

impl CurrentPlaybackView {
    /// The report names its device and says how far playback has come, so
    /// that a snapshot can be taken of it.
    pub open spec fn locates_playback(self) -> bool {
        self.progress_ms is Some && self.device.id is Some
    }

    /// The identifier of the track that is played, if the item is a track
    /// and has one.
    pub open spec fn track_id(self) -> Option<Seq<char>> {
        match self.item {
            Some(PlayableItemView::Track(Some(id))) => Some(id),
            _ => None,
        }
    }

    /// The snapshot that stands for this report.
    pub open spec fn snapshot(self) -> PlaybackStateView
        recommends
            self.locates_playback(),
    {
        PlaybackStateView {
            is_playing: self.is_playing,
            position: seconds_u64(self.progress_ms->0),
            device_id: self.device.id->0,
        }
    }
}

impl CurrentPlayback {
    /// Tells whether the report names its device and its progress.
    pub fn locates_playback(&self) -> (located: bool)
        ensures
            located == self@.locates_playback(),
    {
        self.progress_ms.is_some() && self.device.id.is_some()
    }

    /// The identifier of the track that is played, if the item is a track
    /// and has one.
    pub fn track_id(&self) -> (id: Option<&String>)
        ensures
            id.deep_view() == self@.track_id(),
    {
        match &self.item {
            Some(PlayableItem::Track(Some(id))) => Some(id),
            _ => None,
        }
    }

    /// Takes the snapshot that stands for this report.
    pub fn snapshot(&self) -> (state: PlaybackState)
        requires
            self@.locates_playback(),
        ensures
            state@ == self@.snapshot(),
    {
        let millis: i64 = self.progress_ms.unwrap();
        let device_id = self.device.id.as_ref().unwrap().clone();
        PlaybackState { is_playing: self.is_playing, position: elapsed_u64(millis), device_id }
    }
}

/// The outcome of asking the provider for the current playback.
#[derive(Clone, Debug, PartialEq, Eq)]
pub enum ProviderReply {
    /// Something is being played.
    Playing(CurrentPlayback),
    /// Nothing is being played.
    Idle,
    /// The request failed; the text is the provider client's account of it.
    Failed(String),
}

/// The mathematical content of a [`ProviderReply`].
pub enum ProviderReplyView {
    Playing(CurrentPlaybackView),
    Idle,
    Failed(Seq<char>),
}

impl View for ProviderReply {
    type V = ProviderReplyView;

    open spec fn view(&self) -> ProviderReplyView {
        match self {
            ProviderReply::Playing(playback) => ProviderReplyView::Playing(playback@),
            ProviderReply::Idle => ProviderReplyView::Idle,
            ProviderReply::Failed(error) => ProviderReplyView::Failed(error@),
        }
    }
}

impl ProviderReplyView {
    /// A report of active playback, if there is one, names its device and
    /// its progress.
    pub open spec fn locates_playback(self) -> bool {
        self matches ProviderReplyView::Playing(playback) ==> playback.locates_playback()
    }

    /// A report of active playback, if there is one, is about a track that
    /// has an identifier.
    pub open spec fn names_track(self) -> bool {
        self matches ProviderReplyView::Playing(playback) ==> playback.track_id() is Some
    }

    /// The snapshot that this reply leaves behind: that of the report where
    /// something is played, none where nothing is played or the request
    /// failed.
    pub open spec fn snapshot(self) -> Option<PlaybackStateView>
        recommends
            self.locates_playback(),
    {
        match self {
            ProviderReplyView::Playing(playback) => Some(playback.snapshot()),
            ProviderReplyView::Idle => None,
            ProviderReplyView::Failed(_) => None,
        }
    }
}

impl ProviderReply {
    /// Tells whether a report of active playback, if there is one, names its
    /// device and its progress.
    pub fn locates_playback(&self) -> (located: bool)
        ensures
            located == self@.locates_playback(),
    {
        match self {
            ProviderReply::Playing(playback) => playback.locates_playback(),
            _ => true,
        }
    }

    /// Tells whether a report of active playback, if there is one, is about
    /// a track that has an identifier.
    pub fn names_track(&self) -> (named: bool)
        ensures
            named == self@.names_track(),
    {
        match self {
            ProviderReply::Playing(playback) => playback.track_id().is_some(),
            _ => true,
        }
    }
}

/// The cached fact about remote playback: whether it runs, how many whole
/// seconds have elapsed, and on which device.
#[derive(Clone, Debug, PartialEq, Eq)]
pub struct PlaybackState {
    pub is_playing: bool,
    pub position: u64,
    pub device_id: String,
}

/// The mathematical content of a [`PlaybackState`].
pub struct PlaybackStateView {
    pub is_playing: bool,
    pub position: u64,
    pub device_id: Seq<char>,
}

impl View for PlaybackState {
    type V = PlaybackStateView;

    open spec fn view(&self) -> PlaybackStateView {
        PlaybackStateView {
            is_playing: self.is_playing,
            position: self.position,
            device_id: self.device_id@,
        }
    }
}

impl DeepView for PlaybackState {
    type V = PlaybackStateView;

    open spec fn deep_view(&self) -> PlaybackStateView {
        self@
    }
}

/// The state that all requests share: the handle of the provider client and
/// the snapshot of the last refresh, absent until the first one and
/// whenever nothing is known to be playing.
#[derive(Clone, Debug)]
pub struct SpotifyState<C> {
    pub spotify: C,
    pub playback_status: Option<PlaybackState>,
}

impl<C> SpotifyState<C> {
    /// The snapshot that the state holds.
    pub open spec fn snapshot(&self) -> Option<PlaybackStateView> {
        self.playback_status.deep_view()
    }

    /// The state before the first refresh: the client and no snapshot.
    pub fn new(spotify: C) -> (state: Self)
        ensures
            state.spotify == spotify,
            state.snapshot() is None,
    {
        SpotifyState { spotify, playback_status: None }
    }
}

/// Replaces the snapshot by what the provider has just answered, whatever
/// it held before: the report's snapshot where something is played, none
/// where nothing is played or the request failed.
pub fn update_state<C>(state: &mut SpotifyState<C>, reply: &ProviderReply)
    requires
        reply@.locates_playback(),
    ensures
        final(state).snapshot() == reply@.snapshot(),
        final(state).spotify == old(state).spotify,
{
    match reply {
        ProviderReply::Playing(playing) => {
            state.playback_status = Some(playing.snapshot());
        },
        ProviderReply::Idle => {
            state.playback_status = None;
        },
        ProviderReply::Failed(_) => {
            state.playback_status = None;
        },
    }
}

} // verus!
