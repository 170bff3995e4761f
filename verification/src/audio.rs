//! Sound effects: which file each sound plays, which ambient loop fits the
//! weather and the hour, and the WAV encoding of generated effects.

use vstd::prelude::*;
use crate::world::{Weather, DayPhase};

verus! {

/// Something that makes a sound.
#[derive(Clone, Copy, Debug, PartialEq, Eq, Structural)]
pub enum SoundEvent {
    Hit,
    Gather,
    TreeFall,
    OreMine,
    Build,
    BuildBreak,
    Craft,
    Pickup,
    MenuOpen,
    MenuClose,
    Eat,
    PlayerHurt,
    Death,
    BossRoar,
    PlaceInvalid,
    Trade,
    Discovery,
    LoreComplete,
    AmbientDay,
    AmbientNight,
    AmbientRain,
    AmbientStorm,
}

/// The asset path of the effect a sound plays; ambient sounds have none.
pub open spec fn spec_sound_event_path(event: SoundEvent) -> Option<Seq<char>> {
    match event {
        SoundEvent::Hit => Some("audio/sfx/hit.wav"@),
        SoundEvent::Gather => Some("audio/sfx/gather.wav"@),
        SoundEvent::TreeFall => Some("audio/sfx/tree_fall.wav"@),
        SoundEvent::OreMine => Some("audio/sfx/ore_mine.wav"@),
        SoundEvent::Build => Some("audio/sfx/build.wav"@),
        SoundEvent::BuildBreak => Some("audio/sfx/build_break.wav"@),
        SoundEvent::Craft => Some("audio/sfx/craft.wav"@),
        SoundEvent::Pickup => Some("audio/sfx/pickup.wav"@),
        SoundEvent::MenuOpen => Some("audio/sfx/menu_open.wav"@),
        SoundEvent::MenuClose => Some("audio/sfx/menu_open.wav"@),
        SoundEvent::Eat => Some("audio/sfx/eat.wav"@),
        SoundEvent::PlayerHurt => Some("audio/sfx/player_hurt.wav"@),
        SoundEvent::Death => Some("audio/sfx/death.wav"@),
        SoundEvent::BossRoar => Some("audio/sfx/boss_roar.wav"@),
        SoundEvent::PlaceInvalid => Some("audio/sfx/place_invalid.wav"@),
        SoundEvent::Trade => Some("audio/sfx/trade.wav"@),
        SoundEvent::Discovery => Some("audio/sfx/discovery.wav"@),
        SoundEvent::LoreComplete => Some("audio/sfx/lore_complete.wav"@),
        SoundEvent::AmbientDay | SoundEvent::AmbientNight | SoundEvent::AmbientRain
        | SoundEvent::AmbientStorm => None,
    }
}

/// The asset path of the effect a sound plays, or `None` for the ambient
/// sounds, which have no file.
pub fn sound_event_path(event: &SoundEvent) -> (p: Option<&'static str>)
    ensures
        p.is_some() == spec_sound_event_path(*event).is_some(),
        p.is_some() ==> p.unwrap()@ == spec_sound_event_path(*event).unwrap(),
{
    match event {
        SoundEvent::Hit => Some("audio/sfx/hit.wav"),
        SoundEvent::Gather => Some("audio/sfx/gather.wav"),
        SoundEvent::TreeFall => Some("audio/sfx/tree_fall.wav"),
        SoundEvent::OreMine => Some("audio/sfx/ore_mine.wav"),
        SoundEvent::Build => Some("audio/sfx/build.wav"),
        SoundEvent::BuildBreak => Some("audio/sfx/build_break.wav"),
        SoundEvent::Craft => Some("audio/sfx/craft.wav"),
        SoundEvent::Pickup => Some("audio/sfx/pickup.wav"),
        SoundEvent::MenuOpen => Some("audio/sfx/menu_open.wav"),
        SoundEvent::MenuClose => Some("audio/sfx/menu_open.wav"),
        SoundEvent::Eat => Some("audio/sfx/eat.wav"),
        SoundEvent::PlayerHurt => Some("audio/sfx/player_hurt.wav"),
        SoundEvent::Death => Some("audio/sfx/death.wav"),
        SoundEvent::BossRoar => Some("audio/sfx/boss_roar.wav"),
        SoundEvent::PlaceInvalid => Some("audio/sfx/place_invalid.wav"),
        SoundEvent::Trade => Some("audio/sfx/trade.wav"),
        SoundEvent::Discovery => Some("audio/sfx/discovery.wav"),
        SoundEvent::LoreComplete => Some("audio/sfx/lore_complete.wav"),
        SoundEvent::AmbientDay | SoundEvent::AmbientNight | SoundEvent::AmbientRain
        | SoundEvent::AmbientStorm => None,
    }
}

/// The ambient loop for the weather and the phase of the day: storms and
/// blizzards roar, rain, snow and fog patter, and a clear sky sounds like
/// night or day.
pub open spec fn spec_ambient_sound(weather: Weather, phase: DayPhase) -> SoundEvent {
    match weather {
        Weather::Storm | Weather::Blizzard => SoundEvent::AmbientStorm,
        Weather::Rain | Weather::Snow | Weather::Fog => SoundEvent::AmbientRain,
        Weather::Clear => if phase == DayPhase::Night { SoundEvent::AmbientNight } else { SoundEvent::AmbientDay },
    }
}

/// Picks the ambient loop that plays every few seconds.
pub fn ambient_sound(weather: Weather, phase: DayPhase) -> (s: SoundEvent)
    ensures
        s == spec_ambient_sound(weather, phase),
{
    match weather {
        Weather::Storm => SoundEvent::AmbientStorm,
        Weather::Rain | Weather::Snow | Weather::Fog => SoundEvent::AmbientRain,
        Weather::Blizzard => SoundEvent::AmbientStorm,
        Weather::Clear => match phase {
            DayPhase::Night => SoundEvent::AmbientNight,
            _ => SoundEvent::AmbientDay,
        },
    }
}

// ---------------------------------------------------------------------------
// WAV encoding
// ---------------------------------------------------------------------------

/// Samples per second of the generated effects.
pub const SAMPLE_RATE: u32 = 44100;

/// Little-endian bytes of a 16-bit value.
pub open spec fn le16(x: nat) -> Seq<u8> {
    seq![(x % 256) as u8, ((x / 256) % 256) as u8]
}

/// Little-endian bytes of a 32-bit value.
pub open spec fn le32(x: nat) -> Seq<u8> {
    seq![(x % 256) as u8, ((x / 256) % 256) as u8, ((x / 65536) % 256) as u8, ((x / 16777216) % 256) as u8]
}

/// The two's-complement bit pattern of a sample, as an unsigned number.
pub open spec fn sample_bits(s: i16) -> nat {
    if s >= 0 { s as nat } else { (s + 65536) as nat }
}

/// The 44-byte header of a mono 16-bit PCM WAV file holding `n` samples.
pub open spec fn wav_header(n: nat) -> Seq<u8> {
    seq![82u8, 73u8, 70u8, 70u8]                  // "RIFF"
    + le32(36 + 2 * n)
    + seq![87u8, 65u8, 86u8, 69u8]                // "WAVE"
    + seq![102u8, 109u8, 116u8, 32u8]             // "fmt "
    + le32(16)
    + le16(1)                                     // PCM
    + le16(1)                                     // mono
    + le32(SAMPLE_RATE as nat)
    + le32(2 * SAMPLE_RATE as nat)                // byte rate
    + le16(2)                                     // block align
    + le16(16)                                    // bits per sample
    + seq![100u8, 97u8, 116u8, 97u8]              // "data"
    + le32(2 * n)
}

/// The samples' bytes, each sample little-endian.
pub open spec fn sample_bytes(samples: Seq<i16>) -> Seq<u8>
    decreases samples.len(),
{
    if samples.len() == 0 {
        seq![]
    } else {
        sample_bytes(samples.drop_last()) + le16(sample_bits(samples.last()))
    }
}

/// A whole WAV file for the samples.
pub open spec fn wav_bytes(samples: Seq<i16>) -> Seq<u8> {
    wav_header(samples.len()) + sample_bytes(samples)
}

proof fn lemma_sample_bytes_len(samples: Seq<i16>)
    ensures
        sample_bytes(samples).len() == 2 * samples.len(),
    decreases samples.len(),
{
    if samples.len() > 0 {
        lemma_sample_bytes_len(samples.drop_last());
    }
}

fn push_le16(buf: &mut Vec<u8>, x: u32)
    requires
        x < 65536,
    ensures
        final(buf)@ == old(buf)@ + le16(x as nat),
{
    buf.push((x % 256) as u8);
    buf.push(((x / 256) % 256) as u8);
    proof { assert(final(buf)@ =~= old(buf)@ + le16(x as nat)); }
}

fn push_le32(buf: &mut Vec<u8>, x: u32)
    ensures
        final(buf)@ == old(buf)@ + le32(x as nat),
{
    buf.push((x % 256) as u8);
    buf.push(((x / 256) % 256) as u8);
    buf.push(((x / 65536) % 256) as u8);
    buf.push(((x / 16777216) % 256) as u8);
    proof { assert(final(buf)@ =~= old(buf)@ + le32(x as nat)); }
}

fn push_tag(buf: &mut Vec<u8>, a: u8, b: u8, c: u8, d: u8)
    ensures
        final(buf)@ == old(buf)@ + seq![a, b, c, d],
{
    buf.push(a);
    buf.push(b);
    buf.push(c);
    buf.push(d);
    proof { assert(final(buf)@ =~= old(buf)@ + seq![a, b, c, d]); }
}

/// Encodes mono 16-bit samples at the sample rate as a WAV file: the
/// 44-byte header, then each sample in little-endian order.
pub fn encode_wav(samples: &[i16]) -> (bytes: Vec<u8>)
    requires
        36 + 2 * samples@.len() <= u32::MAX,
    ensures
        bytes@ == wav_bytes(samples@),
        bytes@.len() == 44 + 2 * samples@.len(),
{
    let n = samples.len();
    let data_size: u32 = (n * 2) as u32;
    let file_size: u32 = 36 + data_size;
    let mut buf: Vec<u8> = Vec::new();
    push_tag(&mut buf, 82, 73, 70, 70);
    push_le32(&mut buf, file_size);
    push_tag(&mut buf, 87, 65, 86, 69);
    push_tag(&mut buf, 102, 109, 116, 32);
    push_le32(&mut buf, 16);
    push_le16(&mut buf, 1);
    push_le16(&mut buf, 1);
    push_le32(&mut buf, SAMPLE_RATE);
    push_le32(&mut buf, SAMPLE_RATE * 2);
    push_le16(&mut buf, 2);
    push_le16(&mut buf, 16);
    push_tag(&mut buf, 100, 97, 116, 97);
    push_le32(&mut buf, data_size);
    proof {
        assert(buf@ =~= wav_header(n as nat));
        assert(samples@.take(0) =~= Seq::<i16>::empty());
    }
    let mut i: usize = 0;
    while i < n
        invariant
            n == samples@.len(),
            i <= n,
            buf@ == wav_header(n as nat) + sample_bytes(samples@.take(i as int)),
        decreases n - i,
    {
        let s: i16 = samples[i];
        let bits: u32 = if s >= 0 { s as u32 } else { (s as i32 + 65536) as u32 };
        push_le16(&mut buf, bits);
        proof {
            assert(samples@.take(i as int + 1).drop_last() =~= samples@.take(i as int));
            assert(buf@ =~= wav_header(n as nat) + sample_bytes(samples@.take(i as int + 1)));
        }
        i = i + 1;
    }
    proof {
        assert(samples@.take(n as int) =~= samples@);
        lemma_sample_bytes_len(samples@);
    }
    buf
}

} // verus!
