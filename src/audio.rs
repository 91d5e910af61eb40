//! Sound effects keyed by animation frame: a descriptor that a state attaches to an entity,
//! and the poll that decides, each tick, which effect the audio system is to play.
use vstd::prelude::*;

use crate::handlers::AnimationTrack;
use crate::state::Clip;

verus! {

/// Sound effects to play while the clip `animation_name` runs: the sound of each listed
/// frame, played once each time the playhead reaches that frame.
#[derive(Debug)]
pub struct AnimationAudioPlayback {
    pub animation_name: Clip,
    /// Pairs of a frame and the handle of the sound played there.
    pub effects: Vec<(u32, u64)>,
    pub last_played: Option<u32>,
}

/// What the audio system is to do for one descriptor this tick.
#[derive(Clone, Copy, Debug, PartialEq, Eq, Structural)]
pub enum AudioAction {
    /// The clip has changed: remove the descriptor.
    Detach,
    /// Play the sound with this handle.
    Play(u64),
    Nothing,
}

/// The sound listed for `frame`, if any (the first listing wins).
pub open spec fn effect_at(effects: Seq<(u32, u64)>, frame: u32) -> Option<u64>
    decreases effects.len(),
{
    if effects.len() == 0 {
        None
    } else if effects[0].0 == frame {
        Some(effects[0].1)
    } else {
        effect_at(effects.drop_first(), frame)
    }
}

impl AnimationAudioPlayback {
    pub fn new(animation_name: Clip, effects: Vec<(u32, u64)>) -> (r: AnimationAudioPlayback)
        ensures
            r.animation_name == animation_name,
            r.effects@ == effects@,
            r.last_played is None,
    {
        AnimationAudioPlayback { animation_name, effects, last_played: None }
    }

    fn lookup(&self, frame: u32) -> (r: Option<u64>)
        ensures
            r == effect_at(self.effects@, frame),
    {
        let mut i: usize = 0;
        assert(self.effects@.subrange(0, self.effects@.len() as int) == self.effects@);
        while i < self.effects.len()
            invariant
                i <= self.effects@.len(),
                effect_at(self.effects@, frame) == effect_at(self.effects@.subrange(i as int, self.effects@.len() as int), frame),
            decreases self.effects@.len() - i,
        {
            let ghost rest = self.effects@.subrange(i as int, self.effects@.len() as int);
            assert(rest.drop_first() == self.effects@.subrange(i as int + 1, self.effects@.len() as int));
            if self.effects[i].0 == frame {
                return Some(self.effects[i].1);
            }
            i = i + 1;
        }
        None
    }
}

/// The poll of one descriptor against the entity's playhead: detach once another clip
/// plays; else play the sound of the current frame, unless it was the last one played.
pub fn animation_audio_playback(
    playback: &mut AnimationAudioPlayback,
    animation: &AnimationTrack,
) -> (r: AudioAction)
    ensures
        final(playback).animation_name == old(playback).animation_name,
        final(playback).effects@ == old(playback).effects@,
        animation.current_clip != Some(old(playback).animation_name) ==> r == AudioAction::Detach
            && final(playback).last_played == old(playback).last_played,
        animation.current_clip == Some(old(playback).animation_name) ==> {
            let frame = animation.current_frame;
            match effect_at(old(playback).effects@, frame) {
                Some(h) => if old(playback).last_played != Some(frame) {
                    r == AudioAction::Play(h) && final(playback).last_played == Some(frame)
                } else {
                    r == AudioAction::Nothing && final(playback).last_played == old(playback).last_played
                },
                None => r == AudioAction::Nothing && final(playback).last_played == old(playback).last_played,
            }
        },
{
    if !animation.is_playing(playback.animation_name) {
        return AudioAction::Detach;
    }
    let frame = animation.current_frame;
    match playback.lookup(frame) {
        Some(h) => {
            if playback.last_played != Some(frame) {
                playback.last_played = Some(frame);
                AudioAction::Play(h)
            } else {
                AudioAction::Nothing
            }
        },
        None => AudioAction::Nothing,
    }
}

} // verus!
