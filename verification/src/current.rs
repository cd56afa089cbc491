//! Answering a request for what is being played.

use vstd::prelude::*;
use vstd::string::StringExecFns;
use crate::clock::{elapsed_u32, lemma_seconds_round_down, seconds_u32};
use crate::playback::{
    CurrentPlayback, CurrentPlaybackView, Device, DeviceView, PlaybackStateView, ProviderReply,
    ProviderReplyView, RepeatState, SpotifyState,
};
use crate::reply::{HttpReply, HttpReplyView, ReplyBody, ReplyBodyView};
use crate::track::{Track, TrackRecord, TrackRecordView, TrackView};

verus! {

/// What is being played, as it is shown: the device, the track in short,
/// the whole seconds elapsed, and the shuffle, transport and repeat
/// settings.
#[derive(Clone, Debug, PartialEq, Eq)]
pub struct CurrentlyPlaying {
    pub device: Device,
    pub track: Track,
    pub progress_secs: u32,
    pub shuffled: bool,
    pub playing: bool,
    pub repeat_status: RepeatState,
}

/// The mathematical content of a [`CurrentlyPlaying`].
pub struct CurrentlyPlayingView {
    pub device: DeviceView,
    pub track: TrackView,
    pub progress_secs: u32,
    pub shuffled: bool,
    pub playing: bool,
    pub repeat_status: RepeatState,
}

impl View for CurrentlyPlaying {
    type V = CurrentlyPlayingView;

    open spec fn view(&self) -> CurrentlyPlayingView {
        CurrentlyPlayingView {
            device: self.device@,
            track: self.track@,
            progress_secs: self.progress_secs,
            shuffled: self.shuffled,
            playing: self.playing,
            repeat_status: self.repeat_status,
        }
    }
}

/// What is shown of a report of active playback and the full record of its
/// track.
pub open spec fn shown(playing: CurrentPlaybackView, track: TrackRecordView) -> CurrentlyPlayingView
    recommends
        playing.progress_ms is Some,
        track.album_images.len() > 0,
{
    CurrentlyPlayingView {
        device: playing.device,
        track: track.simplified(),
        progress_secs: seconds_u32(playing.progress_ms->0),
        shuffled: playing.shuffle_state,
        playing: playing.is_playing,
        repeat_status: playing.repeat_state,
    }
}

/// The text that precedes the provider's own words in a failure.
pub open spec fn failure_context() -> Seq<char> {
    "Error with getting playback, "@
}

/// The reply that says that nothing is being played: status 200, declared
/// as JSON, with no body.
pub open spec fn idle_reply() -> HttpReplyView {
    HttpReplyView { status: 200, json: true, body: ReplyBodyView::Empty }
}

/// The reply that shows what is being played: status 200, declared as JSON.
pub open spec fn playing_reply(view: CurrentlyPlayingView) -> HttpReplyView {
    HttpReplyView { status: 200, json: true, body: ReplyBodyView::Playing(view) }
}

/// What is to be done once the provider has answered a read request.
#[derive(Clone, Debug, PartialEq, Eq)]
pub enum ReadStep {
    /// Fetch the full record of the track with this identifier, then show
    /// it.
    Fetch { track_id: String },
    /// Answer with this reply.
    Respond(HttpReply),
}

/// The mathematical content of a [`ReadStep`].
pub enum ReadStepView {
    Fetch { track_id: Seq<char> },
    Respond(HttpReplyView),
}

impl View for ReadStep {
    type V = ReadStepView;

    open spec fn view(&self) -> ReadStepView {
        match self {
            ReadStep::Fetch { track_id } => ReadStepView::Fetch { track_id: track_id@ },
            ReadStep::Respond(reply) => ReadStepView::Respond(reply@),
        }
    }
}

/// The mathematical content of a step that may have failed.
pub open spec fn step_view(step: Result<ReadStep, String>) -> Result<ReadStepView, Seq<char>> {
    match step {
        Ok(next) => Ok(next@),
        Err(message) => Err(message@),
    }
}

/// The step that follows the provider's answer to a read request, or the
/// failure that is reported: the track is fetched where one is played, the
/// idle reply is given where nothing is played, and a failed request is
/// reported in the provider's words behind a fixed context.
pub open spec fn read_step(reply: ProviderReplyView) -> Result<ReadStepView, Seq<char>>
    recommends
        reply.names_track(),
{
    match reply {
        ProviderReplyView::Playing(playing) => Ok(
            ReadStepView::Fetch { track_id: playing.track_id()->0 },
        ),
        ProviderReplyView::Idle => Ok(ReadStepView::Respond(idle_reply())),
        ProviderReplyView::Failed(error) => Err(failure_context() + error),
    }
}

/// The snapshot that the first step of a read leaves behind: the one held
/// before where a track is played and has yet to be fetched, none where
/// nothing is played or the request failed.
pub open spec fn snapshot_after_read_step(
    before: Option<PlaybackStateView>,
    reply: ProviderReplyView,
) -> Option<PlaybackStateView> {
    match reply {
        ProviderReplyView::Playing(_) => before,
        _ => None,
    }
}

/// Decides what follows the provider's answer to a read request.
///
/// Where nothing is played or the request failed, the snapshot is cleared
/// and the idle reply or the failure comes back. Where something is played,
/// it has to be a track with an identifier; the step is to fetch that
/// track, and the snapshot waits for [`show_current_playback`], or for
/// [`fail_current_playback`] where the fetch fails.
pub fn get_current_playback<C>(state: &mut SpotifyState<C>, reply: &ProviderReply) -> (step:
    Result<ReadStep, String>)
    requires
        reply@.names_track(),
    ensures
        step_view(step) == read_step(reply@),
        final(state).snapshot() == snapshot_after_read_step(old(state).snapshot(), reply@),
        final(state).spotify == old(state).spotify,
        step is Err <==> reply is Failed,
{
    match reply {
        ProviderReply::Playing(playing) => {
            let track_id = playing.track_id().unwrap().clone();
            Ok(ReadStep::Fetch { track_id })
        },
        ProviderReply::Idle => {
            state.playback_status = None;
            Ok(ReadStep::Respond(HttpReply { status: 200, json: true, body: ReplyBody::Empty }))
        },
        ProviderReply::Failed(error) => {
            state.playback_status = None;
            let message = String::from_str("Error with getting playback, ").concat(error.as_str());
            Err(message)
        },
    }
}

/// Finishes a read once the track has been fetched: the snapshot becomes
/// that of the report, and the reply shows the report and the track.
///
/// The report names its device and its progress, and the track at least one
/// cover image.
pub fn show_current_playback<C>(
    state: &mut SpotifyState<C>,
    playing: CurrentPlayback,
    full_track: &TrackRecord,
) -> (reply: HttpReply)
    requires
        playing@.locates_playback(),
        full_track.album_images.len() > 0,
    ensures
        reply@ == playing_reply(shown(playing@, full_track@)),
        final(state).snapshot() == Some(playing@.snapshot()),
        final(state).spotify == old(state).spotify,
{
    state.playback_status = Some(playing.snapshot());
    let progress_secs: u32 = elapsed_u32(playing.progress_ms.unwrap());
    let view = CurrentlyPlaying {
        device: playing.device,
        track: Track::simplify_track(full_track),
        progress_secs,
        shuffled: playing.shuffle_state,
        playing: playing.is_playing,
        repeat_status: playing.repeat_state,
    };
    HttpReply { status: 200, json: true, body: ReplyBody::Playing(view) }
}

/// Ends a read whose track could not be fetched: the snapshot is cleared,
/// and the failure is reported in the provider's words behind the same
/// context as a failed request for the playback.
pub fn fail_current_playback<C>(state: &mut SpotifyState<C>, error: &str) -> (message: String)
    ensures
        message@ == failure_context() + error@,
        final(state).snapshot() is None,
        final(state).spotify == old(state).spotify,
{
    state.playback_status = None;
    String::from_str("Error with getting playback, ").concat(error)
}

/// Of every track that is shown, the length is the record's length in whole
/// seconds, rounded down, and the image is the first of the album's cover
/// images. The record's length is not negative and its seconds fit 32 bits.
pub proof fn lemma_shown_track_follows_record(playing: CurrentPlaybackView, track: TrackRecordView)
    requires
        track.album_images.len() > 0,
        0 <= track.duration_ms,
        track.duration_ms as int / 1000 <= u32::MAX,
    ensures
        shown(playing, track).track.duration == track.duration_ms as int / 1000,
        1000 * shown(playing, track).track.duration <= track.duration_ms < 1000 * shown(
            playing,
            track,
        ).track.duration + 1000,
        shown(playing, track).track.image_url == Some(track.album_images[0]),
{
    lemma_seconds_round_down(track.duration_ms);
}

/// A reply that reports nothing playing, or a failed request, leaves no
/// snapshot behind and leads to the idle reply or to the failure, never to
/// a fetch; and a failure never comes with a snapshot.
pub proof fn lemma_inactive_reply_clears_snapshot(
    before: Option<PlaybackStateView>,
    reply: ProviderReplyView,
)
    requires
        !(reply is Playing),
    ensures
        reply.snapshot() is None,
        snapshot_after_read_step(before, reply) is None,
        reply is Idle ==> read_step(reply) == Ok::<ReadStepView, Seq<char>>(
            ReadStepView::Respond(idle_reply()),
        ),
        reply is Failed ==> read_step(reply) is Err,
{
}

} // verus!
