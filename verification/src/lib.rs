//! Decision core of a small HTTP front-end over a remote music-playback
//! provider.
//!
//! The crate holds everything the front-end decides: how the cached playback
//! snapshot follows the provider's answers, which provider call a control
//! command turns into, what every HTTP reply looks like, and how a fetched
//! image is judged, decoded and scaled. Network traffic, locking and JSON
//! encoding belong to the program around it, which hands plain values in and
//! performs the calls that come back.
//!
//! Everything here is verified but for what is taken on trust of three
//! outside functions: that `String::push` appends a character, and that
//! the `image` crate, reached through two private functions of [`resize`],
//! decodes without panicking and scales, under the conditions stated there,
//! to as many pixels as were asked for. Nothing is claimed of what a file
//! decodes to, and which pixels scaling picks is given a name, not
//! described. The external links of a track are kept in the string-keyed
//! hash map of `vstd`, under its specification.

pub mod clock;
pub mod command;
pub mod current;
pub mod playback;
pub mod reply;
pub mod resize;
pub mod text;
pub mod track;

pub use command::{
    authorize, next_track, previous_track, restart_track, settle_command, toggle_playback, Action,
    Command, CommandError, ProviderCall,
};
pub use current::{
    fail_current_playback, get_current_playback, show_current_playback, CurrentlyPlaying, ReadStep,
};
pub use playback::{
    update_state, CurrentPlayback, Device, DeviceType, PlayableItem, PlaybackState, ProviderReply,
    RepeatState, SpotifyState,
};
pub use reply::{HttpReply, ReplyBody};
pub use resize::{
    check_image_response, get_resized_image, image_reply, resize_image, ImageError, ImageFetch,
    Raster,
};
pub use track::{Artist, ArtistRecord, Track, TrackRecord};
pub use vstd::hash_map::StringHashMap;
