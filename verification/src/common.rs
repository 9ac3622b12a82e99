//! The small enumerations that the engine reports as integer codes, and the
//! identifiers of the properties that a bag can hold.

use crate::text::{decimal, decimal_string};
use vstd::prelude::*;

verus! {

/// Why a result was produced.
#[derive(Debug, Clone, Copy, PartialEq, Eq, Structural)]
pub enum ResultReason {
    NoMatch,
    Canceled,
    RecognizingSpeech,
    RecognizedSpeech,
    RecognizingIntent,
    RecognizedIntent,
    RecognizingTranslation,
    RecognizedTranslation,
    SynthesizingAudio,
    SynthesizingAudioCompleted,
    RecognizingKeyword,
    RecognizedKeyword,
    SynthesizingAudioStarted,
    /// A code that this layer has no name for.
    Other(u64),
}

impl ResultReason {
    /// The reason that a code stands for.
    pub open spec fn of_code(code: u64) -> ResultReason {
        if code == 0 {
            ResultReason::NoMatch
        } else if code == 1 {
            ResultReason::Canceled
        } else if code == 2 {
            ResultReason::RecognizingSpeech
        } else if code == 3 {
            ResultReason::RecognizedSpeech
        } else if code == 4 {
            ResultReason::RecognizingIntent
        } else if code == 5 {
            ResultReason::RecognizedIntent
        } else if code == 6 {
            ResultReason::RecognizingTranslation
        } else if code == 7 {
            ResultReason::RecognizedTranslation
        } else if code == 8 {
            ResultReason::SynthesizingAudio
        } else if code == 9 {
            ResultReason::SynthesizingAudioCompleted
        } else if code == 10 {
            ResultReason::RecognizingKeyword
        } else if code == 11 {
            ResultReason::RecognizedKeyword
        } else if code == 12 {
            ResultReason::SynthesizingAudioStarted
        } else {
            ResultReason::Other(code)
        }
    }

    /// The code of a reason.
    pub open spec fn spec_code(self) -> u64 {
        match self {
            ResultReason::NoMatch => 0,
            ResultReason::Canceled => 1,
            ResultReason::RecognizingSpeech => 2,
            ResultReason::RecognizedSpeech => 3,
            ResultReason::RecognizingIntent => 4,
            ResultReason::RecognizedIntent => 5,
            ResultReason::RecognizingTranslation => 6,
            ResultReason::RecognizedTranslation => 7,
            ResultReason::SynthesizingAudio => 8,
            ResultReason::SynthesizingAudioCompleted => 9,
            ResultReason::RecognizingKeyword => 10,
            ResultReason::RecognizedKeyword => 11,
            ResultReason::SynthesizingAudioStarted => 12,
            ResultReason::Other(code) => code,
        }
    }

    /// Names the reason behind a code; a code without a name is kept as it is.
    pub fn from_code(code: u64) -> (r: ResultReason)
        ensures
            r == ResultReason::of_code(code),
            r.spec_code() == code,
    {
        match code {
            0 => ResultReason::NoMatch,
            1 => ResultReason::Canceled,
            2 => ResultReason::RecognizingSpeech,
            3 => ResultReason::RecognizedSpeech,
            4 => ResultReason::RecognizingIntent,
            5 => ResultReason::RecognizedIntent,
            6 => ResultReason::RecognizingTranslation,
            7 => ResultReason::RecognizedTranslation,
            8 => ResultReason::SynthesizingAudio,
            9 => ResultReason::SynthesizingAudioCompleted,
            10 => ResultReason::RecognizingKeyword,
            11 => ResultReason::RecognizedKeyword,
            12 => ResultReason::SynthesizingAudioStarted,
            _ => ResultReason::Other(code),
        }
    }

    /// The code that the engine uses for the reason.
    #[verifier::when_used_as_spec(spec_code)]
    pub fn code(self) -> (c: u64)
        ensures
            c == self.spec_code(),
    {
        match self {
            ResultReason::NoMatch => 0,
            ResultReason::Canceled => 1,
            ResultReason::RecognizingSpeech => 2,
            ResultReason::RecognizedSpeech => 3,
            ResultReason::RecognizingIntent => 4,
            ResultReason::RecognizedIntent => 5,
            ResultReason::RecognizingTranslation => 6,
            ResultReason::RecognizedTranslation => 7,
            ResultReason::SynthesizingAudio => 8,
            ResultReason::SynthesizingAudioCompleted => 9,
            ResultReason::RecognizingKeyword => 10,
            ResultReason::RecognizedKeyword => 11,
            ResultReason::SynthesizingAudioStarted => 12,
            ResultReason::Other(code) => code,
        }
    }

    /// The reason as it is printed: its name, and for a code without a name the
    /// code in decimal within `Other(` and `)`.
    pub open spec fn spec_name(self) -> Seq<char> {
        match self {
            ResultReason::NoMatch => "NoMatch"@,
            ResultReason::Canceled => "Canceled"@,
            ResultReason::RecognizingSpeech => "RecognizingSpeech"@,
            ResultReason::RecognizedSpeech => "RecognizedSpeech"@,
            ResultReason::RecognizingIntent => "RecognizingIntent"@,
            ResultReason::RecognizedIntent => "RecognizedIntent"@,
            ResultReason::RecognizingTranslation => "RecognizingTranslation"@,
            ResultReason::RecognizedTranslation => "RecognizedTranslation"@,
            ResultReason::SynthesizingAudio => "SynthesizingAudio"@,
            ResultReason::SynthesizingAudioCompleted => "SynthesizingAudioCompleted"@,
            ResultReason::RecognizingKeyword => "RecognizingKeyword"@,
            ResultReason::RecognizedKeyword => "RecognizedKeyword"@,
            ResultReason::SynthesizingAudioStarted => "SynthesizingAudioStarted"@,
            ResultReason::Other(code) => "Other("@ + decimal(code as nat) + ")"@,
        }
    }

    /// Writes the reason as it is printed.
    pub fn name(self) -> (name: String)
        ensures
            name@ == self.spec_name(),
    {
        match self {
            ResultReason::NoMatch => "NoMatch".to_owned(),
            ResultReason::Canceled => "Canceled".to_owned(),
            ResultReason::RecognizingSpeech => "RecognizingSpeech".to_owned(),
            ResultReason::RecognizedSpeech => "RecognizedSpeech".to_owned(),
            ResultReason::RecognizingIntent => "RecognizingIntent".to_owned(),
            ResultReason::RecognizedIntent => "RecognizedIntent".to_owned(),
            ResultReason::RecognizingTranslation => "RecognizingTranslation".to_owned(),
            ResultReason::RecognizedTranslation => "RecognizedTranslation".to_owned(),
            ResultReason::SynthesizingAudio => "SynthesizingAudio".to_owned(),
            ResultReason::SynthesizingAudioCompleted => "SynthesizingAudioCompleted".to_owned(),
            ResultReason::RecognizingKeyword => "RecognizingKeyword".to_owned(),
            ResultReason::RecognizedKeyword => "RecognizedKeyword".to_owned(),
            ResultReason::SynthesizingAudioStarted => "SynthesizingAudioStarted".to_owned(),
            ResultReason::Other(code) => "Other(".to_owned().concat(
                decimal_string(code).as_str(),
            ).concat(")"),
        }
    }
}

/// Why recognition was canceled.
#[derive(Debug, Clone, Copy, PartialEq, Eq, Structural)]
pub enum CancellationReason {
    Error,
    EndOfStream,
    CancelledByUser,
    /// A code that this layer has no name for.
    Other(u64),
}

impl CancellationReason {
    /// The reason that a code stands for.
    pub open spec fn of_code(code: u64) -> CancellationReason {
        if code == 1 {
            CancellationReason::Error
        } else if code == 2 {
            CancellationReason::EndOfStream
        } else if code == 3 {
            CancellationReason::CancelledByUser
        } else {
            CancellationReason::Other(code)
        }
    }

    /// The code of a reason.
    pub open spec fn spec_code(self) -> u64 {
        match self {
            CancellationReason::Error => 1,
            CancellationReason::EndOfStream => 2,
            CancellationReason::CancelledByUser => 3,
            CancellationReason::Other(code) => code,
        }
    }

    /// Names the reason behind a code; a code without a name is kept as it is.
    pub fn from_code(code: u64) -> (r: CancellationReason)
        ensures
            r == CancellationReason::of_code(code),
            r.spec_code() == code,
    {
        match code {
            1 => CancellationReason::Error,
            2 => CancellationReason::EndOfStream,
            3 => CancellationReason::CancelledByUser,
            _ => CancellationReason::Other(code),
        }
    }

    /// The code that the engine uses for the reason.
    #[verifier::when_used_as_spec(spec_code)]
    pub fn code(self) -> (c: u64)
        ensures
            c == self.spec_code(),
    {
        match self {
            CancellationReason::Error => 1,
            CancellationReason::EndOfStream => 2,
            CancellationReason::CancelledByUser => 3,
            CancellationReason::Other(code) => code,
        }
    }
}

/// The error behind a cancellation.
#[derive(Debug, Clone, Copy, PartialEq, Eq, Structural)]
pub enum CancellationErrorCode {
    NoError,
    AuthenticationFailure,
    BadRequest,
    TooManyRequests,
    Forbidden,
    ConnectionFailure,
    ServiceTimeout,
    ServiceError,
    ServiceUnavailable,
    RuntimeError,
    /// A code that this layer has no name for.
    Other(u64),
}

impl CancellationErrorCode {
    /// The error that a code stands for.
    pub open spec fn of_code(code: u64) -> CancellationErrorCode {
        if code == 0 {
            CancellationErrorCode::NoError
        } else if code == 1 {
            CancellationErrorCode::AuthenticationFailure
        } else if code == 2 {
            CancellationErrorCode::BadRequest
        } else if code == 3 {
            CancellationErrorCode::TooManyRequests
        } else if code == 4 {
            CancellationErrorCode::Forbidden
        } else if code == 5 {
            CancellationErrorCode::ConnectionFailure
        } else if code == 6 {
            CancellationErrorCode::ServiceTimeout
        } else if code == 7 {
            CancellationErrorCode::ServiceError
        } else if code == 8 {
            CancellationErrorCode::ServiceUnavailable
        } else if code == 9 {
            CancellationErrorCode::RuntimeError
        } else {
            CancellationErrorCode::Other(code)
        }
    }

    /// The code of an error.
    pub open spec fn spec_code(self) -> u64 {
        match self {
            CancellationErrorCode::NoError => 0,
            CancellationErrorCode::AuthenticationFailure => 1,
            CancellationErrorCode::BadRequest => 2,
            CancellationErrorCode::TooManyRequests => 3,
            CancellationErrorCode::Forbidden => 4,
            CancellationErrorCode::ConnectionFailure => 5,
            CancellationErrorCode::ServiceTimeout => 6,
            CancellationErrorCode::ServiceError => 7,
            CancellationErrorCode::ServiceUnavailable => 8,
            CancellationErrorCode::RuntimeError => 9,
            CancellationErrorCode::Other(code) => code,
        }
    }

    /// Names the error behind a code; a code without a name is kept as it is.
    pub fn from_code(code: u64) -> (r: CancellationErrorCode)
        ensures
            r == CancellationErrorCode::of_code(code),
            r.spec_code() == code,
    {
        match code {
            0 => CancellationErrorCode::NoError,
            1 => CancellationErrorCode::AuthenticationFailure,
            2 => CancellationErrorCode::BadRequest,
            3 => CancellationErrorCode::TooManyRequests,
            4 => CancellationErrorCode::Forbidden,
            5 => CancellationErrorCode::ConnectionFailure,
            6 => CancellationErrorCode::ServiceTimeout,
            7 => CancellationErrorCode::ServiceError,
            8 => CancellationErrorCode::ServiceUnavailable,
            9 => CancellationErrorCode::RuntimeError,
            _ => CancellationErrorCode::Other(code),
        }
    }

    /// The code that the engine uses for the error.
    #[verifier::when_used_as_spec(spec_code)]
    pub fn code(self) -> (c: u64)
        ensures
            c == self.spec_code(),
    {
        match self {
            CancellationErrorCode::NoError => 0,
            CancellationErrorCode::AuthenticationFailure => 1,
            CancellationErrorCode::BadRequest => 2,
            CancellationErrorCode::TooManyRequests => 3,
            CancellationErrorCode::Forbidden => 4,
            CancellationErrorCode::ConnectionFailure => 5,
            CancellationErrorCode::ServiceTimeout => 6,
            CancellationErrorCode::ServiceError => 7,
            CancellationErrorCode::ServiceUnavailable => 8,
            CancellationErrorCode::RuntimeError => 9,
            CancellationErrorCode::Other(code) => code,
        }
    }
}

/// The properties that a bag is asked for by identifier.
#[derive(Debug, Clone, Copy, PartialEq, Eq, Structural)]
pub enum PropertyId {
    SpeechServiceConnectionKey,
    SpeechServiceConnectionEndpoint,
    SpeechServiceConnectionRegion,
    SpeechServiceAuthorizationToken,
    SpeechServiceResponseJsonResult,
    SpeechServiceResponseJsonErrorDetails,
    CancellationDetailsReason,
    CancellationDetailsReasonText,
    CancellationDetailsReasonDetailedText,
}

impl PropertyId {
    /// The integer by which the engine knows a property.
    pub open spec fn spec_to_i32(self) -> i32 {
        match self {
            PropertyId::SpeechServiceConnectionKey => 1000,
            PropertyId::SpeechServiceConnectionEndpoint => 1001,
            PropertyId::SpeechServiceConnectionRegion => 1002,
            PropertyId::SpeechServiceAuthorizationToken => 1003,
            PropertyId::SpeechServiceResponseJsonResult => 5000,
            PropertyId::SpeechServiceResponseJsonErrorDetails => 5001,
            PropertyId::CancellationDetailsReason => 6000,
            PropertyId::CancellationDetailsReasonText => 6001,
            PropertyId::CancellationDetailsReasonDetailedText => 6002,
        }
    }

    /// The integer by which the engine knows the property.
    #[verifier::when_used_as_spec(spec_to_i32)]
    pub fn to_i32(self) -> (id: i32)
        ensures
            id == self.spec_to_i32(),
    {
        match self {
            PropertyId::SpeechServiceConnectionKey => 1000,
            PropertyId::SpeechServiceConnectionEndpoint => 1001,
            PropertyId::SpeechServiceConnectionRegion => 1002,
            PropertyId::SpeechServiceAuthorizationToken => 1003,
            PropertyId::SpeechServiceResponseJsonResult => 5000,
            PropertyId::SpeechServiceResponseJsonErrorDetails => 5001,
            PropertyId::CancellationDetailsReason => 6000,
            PropertyId::CancellationDetailsReasonText => 6001,
            PropertyId::CancellationDetailsReasonDetailedText => 6002,
        }
    }
}

} // verus!
