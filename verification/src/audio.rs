//! Audio events.
//!
//! The simulation never plays anything itself. It records what should be heard, in
//! order, and the host's audio session plays the record back after the tick.

use vstd::prelude::*;
use kira::sound::static_sound::StaticSoundSettings;
use crate::assets::SoundHandle;
use crate::schedule::{CoreStage, Game, SessionName, SharedResource, SystemId};

verus! {

/// Playback settings of the audio backend. The simulation carries them through
/// unread.
#[verifier::external_type_specification]
#[verifier::external_body]
pub struct ExStaticSoundSettings(kira::sound::static_sound::StaticSoundSettings);

/// Something to be heard.
pub enum AudioEvent {
    /// Start a piece of music. With `force_restart` it starts over even if the same
    /// piece is playing already.
    PlayMusic { sound_source: SoundHandle, sound_settings: Box<StaticSoundSettings>, force_restart: bool },
    /// Play a sound once at the given volume.
    PlaySound { sound_source: SoundHandle, volume: i32 },
}

/// The queue of audio events of the current tick, oldest first.
pub struct AudioCenter {
    pub events: Vec<AudioEvent>,
}

impl AudioCenter {
    pub fn new() -> (center: AudioCenter)
        ensures
            center.events@.len() == 0,
    {
        AudioCenter { events: Vec::new() }
    }

    /// Appends an event to the queue.
    pub fn push_event(&mut self, event: AudioEvent)
        ensures
            final(self).events@ == old(self).events@.push(event),
    {
        self.events.push(event);
    }

    /// Queues a one-shot sound.
    pub fn play_sound(&mut self, sound_source: SoundHandle, volume: i32)
        ensures
            final(self).events@ == old(self).events@.push(AudioEvent::PlaySound { sound_source, volume }),
    {
        self.push_event(AudioEvent::PlaySound { sound_source, volume });
    }

    /// Hands the queued events over, oldest first, and leaves the queue empty.
    pub fn take_events(&mut self) -> (events: Vec<AudioEvent>)
        ensures
            events@ == old(self).events@,
            final(self).events@.len() == 0,
    {
        let mut events: Vec<AudioEvent> = Vec::new();
        std::mem::swap(&mut events, &mut self.events);
        events
    }
}

/// Music playback with explicit settings.
pub trait AudioCenterExt {
    /// The events queued so far.
    spec fn queued(&self) -> Seq<AudioEvent>;

    /// Queues a piece of music to be played with `sound_settings`, which may or may not
    /// make it loop. `force_restart` says whether the piece starts over when it is
    /// playing already.
    fn play_music_from_settings(
        &mut self,
        sound_source: SoundHandle,
        sound_settings: StaticSoundSettings,
        force_restart: bool,
    )
        ensures
            final(self).queued() == old(self).queued().push(
                AudioEvent::PlayMusic {
                    sound_source,
                    sound_settings: Box::new(sound_settings),
                    force_restart,
                },
            ),
    ;
}

impl AudioCenterExt for AudioCenter {
    open spec fn queued(&self) -> Seq<AudioEvent> {
        self.events@
    }

    fn play_music_from_settings(
        &mut self,
        sound_source: SoundHandle,
        sound_settings: StaticSoundSettings,
        force_restart: bool,
    ) {
        self.push_event(
            AudioEvent::PlayMusic { sound_source, sound_settings: Box::new(sound_settings), force_restart },
        );
    }
}

/// Installs audio into a game: sets up the shared audio centre and registers the
/// music system to the first stage of the game's audio session.
///
/// The game must have an audio session already: audio is installed after the host's
/// own plugins, which make that session. A game without one cannot start.
pub fn game_plugin(game: &mut Game)
    requires
        old(game).has_session(SessionName::Audio),
    ensures
        final(game).shares(SharedResource::AudioCenter),
        final(game).sessions@.len() == old(game).sessions@.len(),
        final(game).schemas == old(game).schemas,
        forall|k: int|
            0 <= k < old(game).sessions@.len() ==> {
                let before = #[trigger] old(game).sessions@[k];
                let after = final(game).sessions@[k];
                &&& after.name == before.name
                &&& after.session.schemas == before.session.schemas
                &&& after.session.stages@ == if old(game).session_index(SessionName::Audio) == Some(k) {
                    before.session.stages@.add(CoreStage::First, SystemId::Music)
                } else {
                    before.session.stages@
                }
            },
{
    let found = game.find_session(SessionName::Audio);
    game.init_shared_resource(SharedResource::AudioCenter);
    match found {
        Some(k) => {
            let named = &mut game.sessions[k];
            named.session.stages.add_system_to_stage(CoreStage::First, SystemId::Music);
        },
        None => {},
    }
}

} // verus!
