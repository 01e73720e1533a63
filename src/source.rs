use vstd::prelude::*;
use crate::clip::{DecodeEvent, DecodeSession, LoadError, format_missing, frames_for};

verus! {

#[verifier::external_type_specification]
#[verifier::external_body]
pub struct ExMediaSourceStream(symphonia::core::io::MediaSourceStream);

#[verifier::external_type_specification]
#[verifier::external_body]
pub struct ExProbeResult(symphonia::core::probe::ProbeResult);

#[verifier::external_type_specification]
#[verifier::external_body]
pub struct ExPacket(symphonia::core::formats::Packet);

#[verifier::external_type_specification]
#[verifier::external_body]
pub struct ExError(symphonia::core::errors::Error);

/// The kind of a failure reported while reading or decoding a stream.
#[derive(Debug, Clone, Copy, PartialEq, Eq, Structural)]
pub enum StreamFault {
    /// The stream ran out of bytes: its end.
    EndOfStream,
    /// Reading the underlying bytes failed for another reason.
    Io,
    /// A packet held malformed data.
    Malformed,
    /// Any other failure: unsupported feature, limit, seek or reset.
    Other,
}

/// Relies on symphonia's default `Probe::format`: detects the container from
/// the content, given the file extension as a hint, and opens a reader on it.
#[verifier::external_body]
fn probe_format(
    mss: symphonia::core::io::MediaSourceStream,
    extension: Option<&str>,
) -> (r: Result<symphonia::core::probe::ProbeResult, symphonia::core::errors::Error>) {
    let mut hint = symphonia::core::probe::Hint::new();
    if let Some(ext) = extension {
        hint.with_extension(ext);
    }
    symphonia::default::get_probe().format(&hint, mss, &Default::default(), &Default::default())
}

/// The default track's reported sample rate and channel count, or `None`
/// when the container has no track.
pub uninterp spec fn track_format_of(p: &symphonia::core::probe::ProbeResult) -> Option<(Option<u32>, Option<u32>)>;

/// The kind of a symphonia error.
pub uninterp spec fn fault_kind(e: symphonia::core::errors::Error) -> StreamFault;

/// Relies on `FormatReader::default_track`: `None` when the container has no
/// track, else the reported sample rate and channel count of that track. It
/// reads the tracks already parsed, so it depends on the reader alone.
#[verifier::external_body]
fn default_track_format(p: &symphonia::core::probe::ProbeResult) -> (r: Option<(Option<u32>, Option<u32>)>)
    ensures
        r == track_format_of(p),
{
    p.format.default_track().map(
        |t| (t.codec_params.sample_rate, t.codec_params.channels.map(|c| c.count() as u32)),
    )
}

/// Relies on `FormatReader::next_packet`: the next packet of the stream, or
/// the error that stopped reading.
#[verifier::external_body]
fn next_packet(p: &mut symphonia::core::probe::ProbeResult) -> (r: Result<symphonia::core::formats::Packet, symphonia::core::errors::Error>) {
    p.format.next_packet()
}

/// Relies on the variants of symphonia's `Error`: tells them apart. The end
/// of a stream is an `IoError` of kind `UnexpectedEof`.
#[verifier::external_body]
fn fault_of(e: symphonia::core::errors::Error) -> (r: StreamFault)
    ensures
        r == fault_kind(e),
{
    match e {
        symphonia::core::errors::Error::IoError(err) if err.kind() == std::io::ErrorKind::UnexpectedEof => {
            StreamFault::EndOfStream
        },
        symphonia::core::errors::Error::IoError(_) => StreamFault::Io,
        symphonia::core::errors::Error::DecodeError(_) => StreamFault::Malformed,
        _ => StreamFault::Other,
    }
}

/// Opens a reader on a media stream. Any failure to recognise it is a
/// `ProbeError`.
pub fn open_stream(mss: symphonia::core::io::MediaSourceStream, extension: Option<&str>) -> (r: Result<
    symphonia::core::probe::ProbeResult,
    LoadError,
>)
    ensures
        r matches Err(e) ==> e == LoadError::ProbeError,
{
    match probe_format(mss, extension) {
        Ok(p) => Ok(p),
        Err(_) => Err(LoadError::ProbeError),
    }
}

/// The event that a failure to read the next packet stands for: the end of
/// the stream ends it, anything else is fatal.
pub fn read_fault_event(f: StreamFault) -> (r: DecodeEvent)
    ensures
        f == StreamFault::EndOfStream ==> r is EndOfStream,
        f != StreamFault::EndOfStream ==> r is Fatal,
{
    match f {
        StreamFault::EndOfStream => DecodeEvent::EndOfStream,
        _ => DecodeEvent::Fatal,
    }
}

/// The event that a failure to decode one packet stands for: malformed data
/// skips the packet, anything else is fatal.
pub fn decode_fault_event(f: StreamFault) -> (r: DecodeEvent)
    ensures
        f == StreamFault::Malformed ==> r is SkippedPacket,
        f != StreamFault::Malformed ==> r is Fatal,
{
    match f {
        StreamFault::Malformed => DecodeEvent::SkippedPacket,
        _ => DecodeEvent::Fatal,
    }
}

/// Reads the next packet, or gives the event its failure stands for: the
/// end of the stream, or a fatal one.
pub fn read_packet(p: &mut symphonia::core::probe::ProbeResult) -> (r: Result<symphonia::core::formats::Packet, DecodeEvent>)
    ensures
        r matches Err(ev) ==> ev is EndOfStream || ev is Fatal,
{
    match next_packet(p) {
        Ok(packet) => Ok(packet),
        Err(e) => Err(read_fault_event(fault_of(e))),
    }
}

/// The event for a packet that a decoder failed on: malformed data skips
/// the packet, anything else is fatal.
pub fn decode_failure(e: symphonia::core::errors::Error) -> (r: DecodeEvent)
    ensures
        fault_kind(e) == StreamFault::Malformed ==> r is SkippedPacket,
        fault_kind(e) != StreamFault::Malformed ==> r is Fatal,
{
    decode_fault_event(fault_of(e))
}

/// Starts gathering a clip of `duration_ms` from the stream's default
/// track. Fails with `ProbeError` when there is no track, and with
/// `MissingFormatInfo` when the track does not give its sample rate and
/// channel count.
pub fn begin_decode(p: &symphonia::core::probe::ProbeResult, duration_ms: u32) -> (r: Result<DecodeSession, LoadError>)
    ensures
        track_format_of(p) is None ==> r == Err::<DecodeSession, LoadError>(LoadError::ProbeError),
        track_format_of(p) matches Some((sr, ch)) ==> {
            &&& (r is Err <==> format_missing(sr, ch))
            &&& (r matches Err(e) ==> e == LoadError::MissingFormatInfo)
            &&& (r matches Ok(s) ==> s.wf() && s.decoded() == Seq::<i16>::empty() && s.kept()
                == Seq::<i16>::empty() && s.rate() == sr->0 && s.target() == frames_for(
                sr->0 as int,
                duration_ms as int,
            ))
        },
{
    match default_track_format(p) {
        None => Err(LoadError::ProbeError),
        Some((rate, channels)) => DecodeSession::start(rate, channels, duration_ms),
    }
}

} // verus!
