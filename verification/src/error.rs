//! The failures of a transcription run.

use vstd::prelude::*;

verus! {

/// Why a run, or one segment of it, failed.
#[derive(Clone, Copy, Debug, PartialEq, Eq, Structural)]
pub enum TranscribeError {
    /// The audio file cannot be opened, or is no readable WAV container.
    AudioOpenError,
    /// The samples are not 16-bit integer PCM, or reading them failed partway.
    AudioDecodeError,
    /// The engine cannot load the model.
    ModelLoadError,
    /// The engine cannot allocate the decode state of the run.
    StateInitError,
    /// The engine failed while decoding.
    DecodeError,
    /// A segment's text is missing or is not valid UTF-8. Only that segment is lost.
    SegmentTextError,
    /// The store's lock is poisoned.
    StoreUnavailable,
    /// The `start` event did not reach the host.
    EventEmissionError,
}

impl TranscribeError {
    /// The description shown to the user.
    pub open spec fn message_spec(self) -> Seq<char> {
        match self {
            TranscribeError::AudioOpenError => "指定されたwavファイルを開けませんでした"@,
            TranscribeError::AudioDecodeError => "Failed to read samples from WAV file"@,
            TranscribeError::ModelLoadError => "言語モデルの読み込みに失敗しました"@,
            TranscribeError::StateInitError => "Whisper Stateの初期化に失敗しました"@,
            TranscribeError::DecodeError => "言語モデルの実行に失敗しました"@,
            TranscribeError::SegmentTextError => "Text segment could not be converted to string."@,
            TranscribeError::StoreUnavailable => "Mutex is poisoned"@,
            TranscribeError::EventEmissionError => "イベントの送信に失敗しました"@,
        }
    }

    /// True of every failure but that of a single segment's text.
    pub open spec fn is_fatal_spec(self) -> bool {
        self != TranscribeError::SegmentTextError
    }

    /// The description shown to the user.
    pub fn message(&self) -> (text: String)
        ensures
            text@ == self.message_spec(),
    {
        match self {
            TranscribeError::AudioOpenError => "指定されたwavファイルを開けませんでした".to_owned(),
            TranscribeError::AudioDecodeError => "Failed to read samples from WAV file".to_owned(),
            TranscribeError::ModelLoadError => "言語モデルの読み込みに失敗しました".to_owned(),
            TranscribeError::StateInitError => "Whisper Stateの初期化に失敗しました".to_owned(),
            TranscribeError::DecodeError => "言語モデルの実行に失敗しました".to_owned(),
            TranscribeError::SegmentTextError => "Text segment could not be converted to string.".to_owned(),
            TranscribeError::StoreUnavailable => "Mutex is poisoned".to_owned(),
            TranscribeError::EventEmissionError => "イベントの送信に失敗しました".to_owned(),
        }
    }

    /// Whether the failure ends the run.
    pub fn is_fatal(&self) -> (fatal: bool)
        ensures
            fatal == self.is_fatal_spec(),
    {
        match self {
            TranscribeError::SegmentTextError => false,
            _ => true,
        }
    }
}

} // verus!
