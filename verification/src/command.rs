//! The control commands: toggle, next, previous and restart.
//!
//! A command is handled in two steps. When the request arrives, its token
//! is held against the secret: a wrong token is rejected, the right one
//! asks for a refresh of the snapshot. Once the provider has answered the
//! refresh, the command becomes one call to the provider, given the device
//! of the fresh snapshot, and the reply that acknowledges it. The program
//! that serves the request performs the refresh and the call; every
//! decision is taken here.

use vstd::prelude::*;
use crate::playback::{
    update_state, PlaybackState, PlaybackStateView, ProviderReply, ProviderReplyView, SpotifyState,
};
use crate::reply::{HttpReply, HttpReplyView};
use crate::text::text_eq;

verus! {

/// A control command.
#[derive(Clone, Copy, Debug, PartialEq, Eq)]
pub enum Command {
    /// Pause what plays, resume what is paused.
    Toggle,
    /// Skip to the next track.
    Next,
    /// Skip to the previous track.
    Previous,
    /// Play the current track from its start.
    Restart,
}

/// A call to the provider that changes playback on one device. Positions
/// are in whole seconds.
#[derive(Clone, Debug, PartialEq, Eq)]
pub enum ProviderCall {
    Pause { device_id: String },
    Resume { device_id: String, position: u64 },
    Next { device_id: String },
    Previous { device_id: String },
    Seek { device_id: String, position: u64 },
}

/// The mathematical content of a [`ProviderCall`].
pub enum ProviderCallView {
    Pause { device_id: Seq<char> },
    Resume { device_id: Seq<char>, position: u64 },
    Next { device_id: Seq<char> },
    Previous { device_id: Seq<char> },
    Seek { device_id: Seq<char>, position: u64 },
}

impl View for ProviderCall {
    type V = ProviderCallView;

    open spec fn view(&self) -> ProviderCallView {
        match self {
            ProviderCall::Pause { device_id } => ProviderCallView::Pause { device_id: device_id@ },
            ProviderCall::Resume { device_id, position } => ProviderCallView::Resume {
                device_id: device_id@,
                position: *position,
            },
            ProviderCall::Next { device_id } => ProviderCallView::Next { device_id: device_id@ },
            ProviderCall::Previous { device_id } => ProviderCallView::Previous {
                device_id: device_id@,
            },
            ProviderCall::Seek { device_id, position } => ProviderCallView::Seek {
                device_id: device_id@,
                position: *position,
            },
        }
    }
}

impl ProviderCallView {
    /// The device that the call addresses.
    pub open spec fn device_id(self) -> Seq<char> {
        match self {
            ProviderCallView::Pause { device_id } => device_id,
            ProviderCallView::Resume { device_id, .. } => device_id,
            ProviderCallView::Next { device_id } => device_id,
            ProviderCallView::Previous { device_id } => device_id,
            ProviderCallView::Seek { device_id, .. } => device_id,
        }
    }
}

/// Why a command with the right token was not carried out.
#[derive(Clone, Copy, Debug, PartialEq, Eq)]
pub enum CommandError {
    /// The refresh left no snapshot, or one without a device to address.
    UnknownPlayback,
}

impl CommandError {
    /// The words of the error.
    pub open spec fn message_text(self) -> Seq<char> {
        "could not determine playback state"@
    }

    /// Puts the error in words.
    pub fn message(&self) -> (text: String)
        ensures
            text@ == self.message_text(),
    {
        "could not determine playback state".to_owned()
    }
}

/// What the serving program has to do next for a command.
#[derive(Clone, Debug, PartialEq, Eq)]
pub enum Action {
    /// Answer with the rejection; touch nothing.
    Reject(HttpReply),
    /// Ask the provider for the current playback and come back with the
    /// answer.
    Refresh,
    /// Make the call, whatever becomes of it, and answer with the reply.
    Dispatch { call: ProviderCall, reply: HttpReply },
    /// Report the error; make no call.
    Fail(CommandError),
}

/// The mathematical content of an [`Action`].
pub enum ActionView {
    Reject(HttpReplyView),
    Refresh,
    Dispatch { call: ProviderCallView, reply: HttpReplyView },
    Fail(CommandError),
}

impl View for Action {
    type V = ActionView;

    open spec fn view(&self) -> ActionView {
        match self {
            Action::Reject(reply) => ActionView::Reject(reply@),
            Action::Refresh => ActionView::Refresh,
            Action::Dispatch { call, reply } => ActionView::Dispatch { call: call@, reply: reply@ },
            Action::Fail(error) => ActionView::Fail(*error),
        }
    }
}

impl ActionView {
    /// The action reaches out to the provider, to read or to change.
    pub open spec fn contacts_provider(self) -> bool {
        self is Refresh || self is Dispatch
    }
}

/// The reply to a request whose token is not the secret: status 400, a
/// fixed JSON message.
pub open spec fn rejection() -> HttpReplyView {
    HttpReplyView::json_text(400, "{\"message\": \"invalid token\"}"@)
}

/// The snapshot names a device that a call can address.
pub open spec fn has_device(snapshot: Option<PlaybackStateView>) -> bool {
    snapshot matches Some(state) && state.device_id.len() > 0
}

/// The call that a command becomes, given the snapshot.
pub open spec fn provider_call(command: Command, state: PlaybackStateView) -> ProviderCallView {
    match command {
        Command::Toggle => if state.is_playing {
            ProviderCallView::Pause { device_id: state.device_id }
        } else {
            ProviderCallView::Resume { device_id: state.device_id, position: state.position }
        },
        Command::Next => ProviderCallView::Next { device_id: state.device_id },
        Command::Previous => ProviderCallView::Previous { device_id: state.device_id },
        Command::Restart => ProviderCallView::Seek { device_id: state.device_id, position: 0 },
    }
}

/// The text that acknowledges a command, given the snapshot.
pub open spec fn acknowledgement_text(command: Command, state: PlaybackStateView) -> Seq<char> {
    match command {
        Command::Toggle => if state.is_playing {
            "{\"message\": \"playback paused\"}"@
        } else {
            "{\"message\": \"playback resumed\"}"@
        },
        Command::Next => "{\"message\": \"successfully skipped to the next track\""@,
        Command::Previous => "{\"message\": \"successfully skipped to the previous track\""@,
        Command::Restart => "{\"message\": \"successfully restarted the track\""@,
    }
}

/// The reply that acknowledges a command: status 200, a fixed JSON text.
pub open spec fn acknowledgement(command: Command, state: PlaybackStateView) -> HttpReplyView {
    HttpReplyView::json_text(200, acknowledgement_text(command, state))
}

/// What a command does with a fresh snapshot: the call and its
/// acknowledgement where the snapshot names a device, the error otherwise.
pub open spec fn dispatch(command: Command, snapshot: Option<PlaybackStateView>) -> ActionView {
    if has_device(snapshot) {
        ActionView::Dispatch {
            call: provider_call(command, snapshot->0),
            reply: acknowledgement(command, snapshot->0),
        }
    } else {
        ActionView::Fail(CommandError::UnknownPlayback)
    }
}

/// The snapshot that a command leaves behind a fresh one. Toggle marks the
/// playback as not running once it has made its call, whichever call that
/// was; nothing else changes anything.
pub open spec fn settled(command: Command, snapshot: Option<PlaybackStateView>) -> Option<
    PlaybackStateView,
> {
    if command == Command::Toggle && has_device(snapshot) {
        Some(
            PlaybackStateView {
                is_playing: false,
                position: snapshot->0.position,
                device_id: snapshot->0.device_id,
            },
        )
    } else {
        snapshot
    }
}

/// The action on the arrival of a request: a token that is not the secret
/// is rejected, the secret asks for a refresh.
pub open spec fn arrival_action(secret: Seq<char>, token: Seq<char>) -> ActionView {
    if secret != token {
        ActionView::Reject(rejection())
    } else {
        ActionView::Refresh
    }
}

/// The action once the provider has answered the refresh. The token is
/// held against the secret once more; the right one lets the fresh
/// snapshot settle the command.
pub open spec fn refreshed_action(
    command: Command,
    secret: Seq<char>,
    token: Seq<char>,
    reply: ProviderReplyView,
) -> ActionView
    recommends
        reply.locates_playback(),
{
    if secret != token {
        ActionView::Reject(rejection())
    } else {
        dispatch(command, reply.snapshot())
    }
}

/// The snapshot once the provider has answered the refresh: the one held
/// before where the token is wrong, and otherwise what the command leaves
/// of the fresh one.
pub open spec fn refreshed_snapshot(
    command: Command,
    secret: Seq<char>,
    token: Seq<char>,
    before: Option<PlaybackStateView>,
    reply: ProviderReplyView,
) -> Option<PlaybackStateView>
    recommends
        reply.locates_playback(),
{
    if secret != token {
        before
    } else {
        settled(command, reply.snapshot())
    }
}

/// The actions that one request leads to from its arrival to its end, given
/// the answer that the provider has for a refresh.
pub open spec fn request_actions(
    command: Command,
    secret: Seq<char>,
    token: Seq<char>,
    reply: ProviderReplyView,
) -> Seq<ActionView>
    recommends
        reply.locates_playback(),
{
    let first = arrival_action(secret, token);
    if first is Refresh {
        seq![first, refreshed_action(command, secret, token, reply)]
    } else {
        seq![first]
    }
}

/// A request whose token is not the secret leads to the rejection and to
/// nothing else: at neither step is the provider asked or told anything,
/// and the snapshot stays as it was.
pub proof fn lemma_mismatch_contacts_nobody(
    command: Command,
    secret: Seq<char>,
    token: Seq<char>,
    before: Option<PlaybackStateView>,
    reply: ProviderReplyView,
)
    requires
        secret != token,
    ensures
        arrival_action(secret, token) == ActionView::Reject(rejection()),
        refreshed_action(command, secret, token, reply) == ActionView::Reject(rejection()),
        !arrival_action(secret, token).contacts_provider(),
        !refreshed_action(command, secret, token, reply).contacts_provider(),
        refreshed_snapshot(command, secret, token, before, reply) == before,
        request_actions(command, secret, token, reply) == seq![ActionView::Reject(rejection())],
{
}

/// A request whose token is the secret is refreshed first and then settled
/// by the fresh snapshot alone: it ends in one call or in the error.
pub proof fn lemma_match_refreshes_then_settles(
    command: Command,
    secret: Seq<char>,
    reply: ProviderReplyView,
)
    ensures
        request_actions(command, secret, secret, reply) == seq![
            ActionView::Refresh,
            dispatch(command, reply.snapshot()),
        ],
        !(dispatch(command, reply.snapshot()) is Refresh),
        !(dispatch(command, reply.snapshot()) is Reject),
{
}

/// Restart asks for the same thing every time: a seek to position zero on
/// the device of the snapshot. Nothing else of the snapshot matters, and
/// the command leaves the snapshot as the refresh made it.
pub proof fn lemma_restart_repeats(first: PlaybackStateView, second: PlaybackStateView)
    requires
        first.device_id == second.device_id,
        first.device_id.len() > 0,
    ensures
        dispatch(Command::Restart, Some(first)) == dispatch(Command::Restart, Some(second)),
        dispatch(Command::Restart, Some(first)) matches ActionView::Dispatch { call, .. } && call
            == (ProviderCallView::Seek { device_id: first.device_id, position: 0 }),
        settled(Command::Restart, Some(first)) == Some(first),
{
}

/// Toggle pauses what plays and resumes what is paused, on the device and
/// at the position of the snapshot; afterwards the snapshot says that
/// nothing runs.
pub proof fn lemma_toggle_follows_snapshot(state: PlaybackStateView)
    requires
        state.device_id.len() > 0,
    ensures
        state.is_playing ==> dispatch(Command::Toggle, Some(state)) == (ActionView::Dispatch {
            call: ProviderCallView::Pause { device_id: state.device_id },
            reply: HttpReplyView::json_text(200, "{\"message\": \"playback paused\"}"@),
        }),
        !state.is_playing ==> dispatch(Command::Toggle, Some(state)) == (ActionView::Dispatch {
            call: ProviderCallView::Resume { device_id: state.device_id, position: state.position },
            reply: HttpReplyView::json_text(200, "{\"message\": \"playback resumed\"}"@),
        }),
        settled(Command::Toggle, Some(state)) matches Some(after) && !after.is_playing
            && after.device_id == state.device_id && after.position == state.position,
{
}

/// No call is ever made without a device: a command whose fresh snapshot is
/// absent or names no device ends in the error, and every call that is
/// made addresses the snapshot's device, which has a name.
pub proof fn lemma_calls_name_a_device(command: Command, snapshot: Option<PlaybackStateView>)
    ensures
        !has_device(snapshot) ==> dispatch(command, snapshot) == ActionView::Fail(
            CommandError::UnknownPlayback,
        ),
        dispatch(command, snapshot) matches ActionView::Dispatch { call, .. } ==> {
            &&& snapshot is Some
            &&& call.device_id() == snapshot->0.device_id
            &&& call.device_id().len() > 0
        },
{
}

/// A refresh that finds nothing playing, or fails, ends every command in
/// the error.
pub proof fn lemma_inactive_reply_fails_command(
    command: Command,
    secret: Seq<char>,
    before: Option<PlaybackStateView>,
    reply: ProviderReplyView,
)
    requires
        !(reply is Playing),
    ensures
        refreshed_action(command, secret, secret, reply) == ActionView::Fail(
            CommandError::UnknownPlayback,
        ),
        refreshed_snapshot(command, secret, secret, before, reply) is None,
{
}

fn acknowledge(command: Command, state: &PlaybackState) -> (reply: HttpReply)
    ensures
        reply@ == acknowledgement(command, state@),
{
    match command {
        Command::Toggle => if state.is_playing {
            HttpReply::json_text(200, "{\"message\": \"playback paused\"}")
        } else {
            HttpReply::json_text(200, "{\"message\": \"playback resumed\"}")
        },
        Command::Next => HttpReply::json_text(
            200,
            "{\"message\": \"successfully skipped to the next track\"",
        ),
        Command::Previous => HttpReply::json_text(
            200,
            "{\"message\": \"successfully skipped to the previous track\"",
        ),
        Command::Restart => HttpReply::json_text(
            200,
            "{\"message\": \"successfully restarted the track\"",
        ),
    }
}

fn call_for(command: Command, state: &PlaybackState) -> (call: ProviderCall)
    ensures
        call@ == provider_call(command, state@),
{
    let device_id = state.device_id.clone();
    match command {
        Command::Toggle => if state.is_playing {
            ProviderCall::Pause { device_id }
        } else {
            ProviderCall::Resume { device_id, position: state.position }
        },
        Command::Next => ProviderCall::Next { device_id },
        Command::Previous => ProviderCall::Previous { device_id },
        Command::Restart => ProviderCall::Seek { device_id, position: 0 },
    }
}

/// Holds the token of an arriving request against the secret, letter for
/// letter: a token that differs is rejected, the secret itself asks for a
/// refresh of the snapshot.
pub fn authorize(auth_secret: &str, auth_token: &str) -> (action: Action)
    ensures
        action@ == arrival_action(auth_secret@, auth_token@),
        action is Refresh <==> auth_secret@ == auth_token@,
{
    if text_eq(auth_secret, auth_token) {
        Action::Refresh
    } else {
        Action::Reject(HttpReply::json_text(400, "{\"message\": \"invalid token\"}"))
    }
}

/// Settles a command once the provider has answered the refresh.
///
/// The token is held against the secret once more: where they differ the
/// rejection comes back and the state is left as it was. Where they agree,
/// the provider's answer replaces the snapshot, and the command becomes its
/// call and acknowledgement, or the error where the fresh snapshot names no
/// device. The answer, if it reports playback, names its device and its
/// progress.
pub fn settle_command<C>(
    command: Command,
    auth_secret: &str,
    auth_token: &str,
    state: &mut SpotifyState<C>,
    reply: &ProviderReply,
) -> (action: Action)
    requires
        reply@.locates_playback(),
    ensures
        action@ == refreshed_action(command, auth_secret@, auth_token@, reply@),
        final(state).snapshot() == refreshed_snapshot(
            command,
            auth_secret@,
            auth_token@,
            old(state).snapshot(),
            reply@,
        ),
        final(state).spotify == old(state).spotify,
        auth_secret@ != auth_token@ ==> *final(state) == *old(state) && !action@.contacts_provider(),
{
    if !text_eq(auth_secret, auth_token) {
        return Action::Reject(HttpReply::json_text(400, "{\"message\": \"invalid token\"}"));
    }
    update_state(state, reply);
    let known: bool = match &state.playback_status {
        Some(playback) => !playback.device_id.as_str().is_empty(),
        None => false,
    };
    if !known {
        return Action::Fail(CommandError::UnknownPlayback);
    }
    let playback = state.playback_status.as_ref().unwrap();
    let call = call_for(command, playback);
    let reply = acknowledge(command, playback);
    match command {
        Command::Toggle => {
            let settled = PlaybackState {
                is_playing: false,
                position: playback.position,
                device_id: playback.device_id.clone(),
            };
            state.playback_status = Some(settled);
        },
        _ => {},
    }
    Action::Dispatch { call, reply }
}

/// Settles the toggle command on the provider's answer: pause what plays,
/// resume what is paused at the position of the snapshot. Either way the
/// snapshot is left marked as not running.
pub fn toggle_playback<C>(
    auth_secret: &str,
    auth_token: &str,
    state: &mut SpotifyState<C>,
    reply: &ProviderReply,
) -> (action: Action)
    requires
        reply@.locates_playback(),
    ensures
        action@ == refreshed_action(Command::Toggle, auth_secret@, auth_token@, reply@),
        final(state).snapshot() == refreshed_snapshot(
            Command::Toggle,
            auth_secret@,
            auth_token@,
            old(state).snapshot(),
            reply@,
        ),
        final(state).spotify == old(state).spotify,
        auth_secret@ != auth_token@ ==> *final(state) == *old(state) && !action@.contacts_provider(),
{
    settle_command(Command::Toggle, auth_secret, auth_token, state, reply)
}

/// Settles the command that skips to the next track on the provider's
/// answer.
pub fn next_track<C>(
    auth_secret: &str,
    auth_token: &str,
    state: &mut SpotifyState<C>,
    reply: &ProviderReply,
) -> (action: Action)
    requires
        reply@.locates_playback(),
    ensures
        action@ == refreshed_action(Command::Next, auth_secret@, auth_token@, reply@),
        final(state).snapshot() == refreshed_snapshot(
            Command::Next,
            auth_secret@,
            auth_token@,
            old(state).snapshot(),
            reply@,
        ),
        final(state).spotify == old(state).spotify,
        auth_secret@ != auth_token@ ==> *final(state) == *old(state) && !action@.contacts_provider(),
{
    settle_command(Command::Next, auth_secret, auth_token, state, reply)
}

/// Settles the command that skips to the previous track on the provider's
/// answer.
pub fn previous_track<C>(
    auth_secret: &str,
    auth_token: &str,
    state: &mut SpotifyState<C>,
    reply: &ProviderReply,
) -> (action: Action)
    requires
        reply@.locates_playback(),
    ensures
        action@ == refreshed_action(Command::Previous, auth_secret@, auth_token@, reply@),
        final(state).snapshot() == refreshed_snapshot(
            Command::Previous,
            auth_secret@,
            auth_token@,
            old(state).snapshot(),
            reply@,
        ),
        final(state).spotify == old(state).spotify,
        auth_secret@ != auth_token@ ==> *final(state) == *old(state) && !action@.contacts_provider(),
{
    settle_command(Command::Previous, auth_secret, auth_token, state, reply)
}

/// Settles the command that plays the current track from its start on the
/// provider's answer: a seek to position zero.
pub fn restart_track<C>(
    auth_secret: &str,
    auth_token: &str,
    state: &mut SpotifyState<C>,
    reply: &ProviderReply,
) -> (action: Action)
    requires
        reply@.locates_playback(),
    ensures
        action@ == refreshed_action(Command::Restart, auth_secret@, auth_token@, reply@),
        final(state).snapshot() == refreshed_snapshot(
            Command::Restart,
            auth_secret@,
            auth_token@,
            old(state).snapshot(),
            reply@,
        ),
        final(state).spotify == old(state).spotify,
        auth_secret@ != auth_token@ ==> *final(state) == *old(state) && !action@.contacts_provider(),
{
    settle_command(Command::Restart, auth_secret, auth_token, state, reply)
}

} // verus!
