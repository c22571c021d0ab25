use vstd::prelude::*;

verus! {

/// What a speech synthesis request reads aloud.
#[derive(Clone, Debug)]
pub enum SynthesisInput {
    Text(String),
    SSML(String),
}

#[derive(Clone, Copy, Debug, PartialEq, Eq, Structural)]
pub enum SsmlVoiceGender {
    Male,
    Female,
    Neutral,
    SsmlVoiceGenderUnspecified,
}

#[derive(Clone, Debug)]
pub struct CustomVoiceParams {
    pub model: String,
}

/// The voice to speak with: a language and a voice name.
#[derive(Clone, Debug)]
pub struct VoiceSelectionParams {
    pub language_code: String,
    pub name: String,
}

/// The language every synthesized message is spoken in.
pub const LANGUAGE_CODE: &'static str = "pt-BR";

impl VoiceSelectionParams {
    pub fn new(name: String) -> (r: VoiceSelectionParams)
        ensures
            r.name@ == name@,
            r.language_code@ == LANGUAGE_CODE@,
    {
        VoiceSelectionParams { name, language_code: LANGUAGE_CODE.to_owned() }
    }
}

#[derive(Clone, Copy, Debug, PartialEq, Eq, Structural)]
pub enum AudioEncoding {
    Linear16,
    Mp3,
    OggOpus,
    Mulaw,
    Alaw,
    AudioEncodingUnspecified,
}

#[derive(Clone, Debug)]
pub struct AudioConfig {
    pub audio_encoding: AudioEncoding,
}

impl AudioConfig {
    pub fn new(audio_encoding: AudioEncoding) -> (r: AudioConfig)
        ensures
            r.audio_encoding == audio_encoding,
    {
        AudioConfig { audio_encoding }
    }
}

/// A speech synthesis request: plain text, a voice, MP3 output.
#[derive(Clone, Debug)]
pub struct VoiceRequest {
    pub input: SynthesisInput,
    pub voice: VoiceSelectionParams,
    pub audio_config: AudioConfig,
}

impl VoiceRequest {
    pub fn new(message: String, voice: String) -> (r: VoiceRequest)
        ensures
            r.input matches SynthesisInput::Text(t) && t@ == message@,
            r.voice.name@ == voice@,
            r.voice.language_code@ == LANGUAGE_CODE@,
            r.audio_config.audio_encoding == AudioEncoding::Mp3,
    {
        VoiceRequest {
            input: SynthesisInput::Text(message),
            voice: VoiceSelectionParams::new(voice),
            audio_config: AudioConfig::new(AudioEncoding::Mp3),
        }
    }
}

/// A speech synthesis answer: the audio, base64-encoded.
#[derive(Clone, Debug)]
pub struct VoiceResponse {
    pub audio_content: String,
}

} // verus!
