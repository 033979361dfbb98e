//! Errors of the player.
use crate::text::concat;
use vstd::prelude::*;

verus! {

/// Result of a player operation.
pub type PlayerResult<T> = Result<T, PlayerError>;

/// Category of an error.
#[derive(Debug, Clone, Copy, PartialEq, Eq, Structural)]
pub enum PlayerErrorKind {
    /// The video codec is not supported.
    UnsupportedVideoCodec,
    /// The codec profile is not supported by the hardware.
    UnsupportedVideoProfile,
    /// The dynamic range cannot be shown.
    UnsupportedHdrMode,
    /// The renderer does not take the frame format.
    UnsupportedRenderFormat,
    /// The hardware decoder is not available.
    HardwareDecoderUnavailable,
    /// Reading the container failed.
    DemuxError,
    /// The network source failed.
    NetworkError,
    /// The audio device is not available.
    AudioDeviceUnavailable,
    /// The render device was lost.
    RenderDeviceLost,
    /// Storage failed.
    StorageError,
    /// The configuration is invalid.
    ConfigError,
    /// Another failure at run time.
    RuntimeError,
    /// The command does not fit the state.
    InvalidCommand,
}

impl PlayerErrorKind {
    /// The name of the category.
    pub open spec fn spec_name(self) -> Seq<char> {
        match self {
            PlayerErrorKind::UnsupportedVideoCodec => "UnsupportedVideoCodec"@,
            PlayerErrorKind::UnsupportedVideoProfile => "UnsupportedVideoProfile"@,
            PlayerErrorKind::UnsupportedHdrMode => "UnsupportedHdrMode"@,
            PlayerErrorKind::UnsupportedRenderFormat => "UnsupportedRenderFormat"@,
            PlayerErrorKind::HardwareDecoderUnavailable => "HardwareDecoderUnavailable"@,
            PlayerErrorKind::DemuxError => "DemuxError"@,
            PlayerErrorKind::NetworkError => "NetworkError"@,
            PlayerErrorKind::AudioDeviceUnavailable => "AudioDeviceUnavailable"@,
            PlayerErrorKind::RenderDeviceLost => "RenderDeviceLost"@,
            PlayerErrorKind::StorageError => "StorageError"@,
            PlayerErrorKind::ConfigError => "ConfigError"@,
            PlayerErrorKind::RuntimeError => "RuntimeError"@,
            PlayerErrorKind::InvalidCommand => "InvalidCommand"@,
        }
    }

    /// The name of the category.
    pub fn name(self) -> (r: &'static str)
        ensures
            r@ == self.spec_name(),
    {
        match self {
            PlayerErrorKind::UnsupportedVideoCodec => "UnsupportedVideoCodec",
            PlayerErrorKind::UnsupportedVideoProfile => "UnsupportedVideoProfile",
            PlayerErrorKind::UnsupportedHdrMode => "UnsupportedHdrMode",
            PlayerErrorKind::UnsupportedRenderFormat => "UnsupportedRenderFormat",
            PlayerErrorKind::HardwareDecoderUnavailable => "HardwareDecoderUnavailable",
            PlayerErrorKind::DemuxError => "DemuxError",
            PlayerErrorKind::NetworkError => "NetworkError",
            PlayerErrorKind::AudioDeviceUnavailable => "AudioDeviceUnavailable",
            PlayerErrorKind::RenderDeviceLost => "RenderDeviceLost",
            PlayerErrorKind::StorageError => "StorageError",
            PlayerErrorKind::ConfigError => "ConfigError",
            PlayerErrorKind::RuntimeError => "RuntimeError",
            PlayerErrorKind::InvalidCommand => "InvalidCommand",
        }
    }
}

/// An error with its category and a readable message.
#[derive(Debug, Clone, PartialEq, Eq)]
pub struct PlayerError {
    /// The category.
    pub kind: PlayerErrorKind,
    /// The message for logs and displays.
    pub message: String,
}

impl PlayerError {
    /// An error of a category.
    pub fn new(kind: PlayerErrorKind, message: String) -> (r: Self)
        ensures
            r == (PlayerError { kind, message }),
    {
        PlayerError { kind, message }
    }

    /// The category and the message, separated by a colon.
    pub fn display(&self) -> (r: String)
        ensures
            r@ == self.kind.spec_name() + ": "@ + self.message@,
    {
        let head = concat(self.kind.name(), ": ");
        concat(head.as_str(), self.message.as_str())
    }
}

/// The names of the categories.
pub proof fn law_categories_are_named(kind: PlayerErrorKind, name: &'static str)
    requires
        call_ensures(PlayerErrorKind::name, (kind,), name),
    ensures
        kind is UnsupportedVideoCodec ==> name@ == "UnsupportedVideoCodec"@,
        kind is UnsupportedVideoProfile ==> name@ == "UnsupportedVideoProfile"@,
        kind is UnsupportedHdrMode ==> name@ == "UnsupportedHdrMode"@,
        kind is UnsupportedRenderFormat ==> name@ == "UnsupportedRenderFormat"@,
        kind is HardwareDecoderUnavailable ==> name@ == "HardwareDecoderUnavailable"@,
        kind is DemuxError ==> name@ == "DemuxError"@,
        kind is NetworkError ==> name@ == "NetworkError"@,
        kind is AudioDeviceUnavailable ==> name@ == "AudioDeviceUnavailable"@,
        kind is RenderDeviceLost ==> name@ == "RenderDeviceLost"@,
        kind is StorageError ==> name@ == "StorageError"@,
        kind is ConfigError ==> name@ == "ConfigError"@,
        kind is RuntimeError ==> name@ == "RuntimeError"@,
        kind is InvalidCommand ==> name@ == "InvalidCommand"@,
{
}

/// An error is shown by the name of its category and its message.
pub proof fn law_error_is_shown_with_its_category(
    error: PlayerError,
    name: &'static str,
    shown: String,
)
    requires
        call_ensures(PlayerErrorKind::name, (error.kind,), name),
        call_ensures(PlayerError::display, (&error,), shown),
    ensures
        shown@ == name@ + ": "@ + error.message@,
{
}

} // verus!
