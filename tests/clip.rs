use openwah::clip::{fit_to_length, target_frames, DecodeEvent, DecodeSession, LoadError, SampleClip};

fn ramp(n: usize) -> Vec<i16> {
    (0..n).map(|i| ((i % 2000) as i16) - 1000).collect()
}

fn feed_mono(session: &mut DecodeSession, samples: &[i16], chunk: usize) {
    for part in samples.chunks(chunk) {
        let more = session
            .accept(DecodeEvent::Frames { channels: 1, samples: part.to_vec() })
            .unwrap();
        if !more {
            return;
        }
    }
    assert_eq!(session.accept(DecodeEvent::EndOfStream), Ok(false));
}

#[test]
fn frame_count_rounds_to_nearest() {
    assert_eq!(target_frames(48_000, 500), 24_000);
    assert_eq!(target_frames(44_100, 500), 22_050);
    assert_eq!(target_frames(44_100, 1), 44);
    assert_eq!(target_frames(1_500, 1), 2);
    assert_eq!(target_frames(1_499, 1), 1);
    assert_eq!(target_frames(u32::MAX, u32::MAX), 18_446_744_065_119_617);
}

#[test]
fn fit_pads_short_input_with_silence() {
    assert_eq!(fit_to_length(vec![3, -4], 5), vec![3, -4, 0, 0, 0]);
}

#[test]
fn fit_truncates_long_input() {
    assert_eq!(fit_to_length(vec![1, 2, 3, 4, 5], 3), vec![1, 2, 3]);
    assert_eq!(fit_to_length(vec![1, 2, 3], 3), vec![1, 2, 3]);
    assert_eq!(fit_to_length(vec![1, 2, 3], 0), Vec::<i16>::new());
}

#[test]
fn fitted_clip_has_exact_length() {
    let clip = SampleClip::fitted(44_100, vec![7; 10], 500).unwrap();
    assert_eq!(clip.sample_rate(), 44_100);
    assert_eq!(clip.len(), 22_050);
    assert_eq!(&clip.samples()[..10], &[7; 10]);
    assert!(clip.samples()[10..].iter().all(|&s| s == 0));
    assert!(SampleClip::fitted(0, vec![1], 500).is_none());
}

#[test]
fn long_source_is_cut_to_the_bite() {
    let source = ramp(96_000);
    let mut session = DecodeSession::start(Some(48_000), Some(1), 500).unwrap();
    feed_mono(&mut session, &source, 4_800);
    assert!(!session.wants_more());
    let clip = session.finish().unwrap();
    assert_eq!(clip.len(), 24_000);
    assert_eq!(clip.samples()[..], source[..24_000]);
}

#[test]
fn short_source_is_padded_with_silence() {
    let source = ramp(48_000);
    let mut session = DecodeSession::start(Some(48_000), Some(1), 2_000).unwrap();
    feed_mono(&mut session, &source, 4_000);
    let clip = session.finish().unwrap();
    assert_eq!(clip.len(), 96_000);
    assert_eq!(clip.samples()[..48_000], source[..]);
    assert!(clip.samples()[48_000..].iter().all(|&s| s == 0));
}

#[test]
fn stereo_frames_are_averaged() {
    let mut session = DecodeSession::start(Some(8), Some(2), 1_000).unwrap();
    let more = session
        .accept(DecodeEvent::Frames { channels: 2, samples: vec![10, 20, -10, -21, 32_767, 32_767, -32_768, -32_768, 5] })
        .unwrap();
    assert!(more);
    let clip = session.finish().unwrap();
    assert_eq!(clip.samples(), &vec![15, -15, 32_767, -32_768, 0, 0, 0, 0]);
}

#[test]
fn zero_channels_read_as_mono() {
    let mut session = DecodeSession::start(Some(4), Some(1), 1_000).unwrap();
    assert_eq!(session.accept(DecodeEvent::Frames { channels: 0, samples: vec![1, 2] }), Ok(true));
    assert_eq!(session.finish().unwrap().samples(), &vec![1, 2, 0, 0]);
}

#[test]
fn skipped_packet_keeps_reading() {
    let mut session = DecodeSession::start(Some(4), Some(1), 1_000).unwrap();
    assert_eq!(session.accept(DecodeEvent::SkippedPacket), Ok(true));
    assert_eq!(session.accept(DecodeEvent::Frames { channels: 1, samples: vec![9] }), Ok(true));
    assert_eq!(session.accept(DecodeEvent::SkippedPacket), Ok(true));
    assert_eq!(session.finish().unwrap().samples(), &vec![9, 0, 0, 0]);
}

#[test]
fn fatal_event_is_a_decode_error() {
    let mut session = DecodeSession::start(Some(4), Some(1), 1_000).unwrap();
    assert_eq!(session.accept(DecodeEvent::Fatal), Err(LoadError::DecodeError));
}

#[test]
fn missing_format_info_is_refused() {
    assert_eq!(DecodeSession::start(None, Some(2), 500).err(), Some(LoadError::MissingFormatInfo));
    assert_eq!(DecodeSession::start(Some(44_100), None, 500).err(), Some(LoadError::MissingFormatInfo));
    assert_eq!(DecodeSession::start(Some(0), Some(2), 500).err(), Some(LoadError::MissingFormatInfo));
    assert_eq!(DecodeSession::start(Some(44_100), Some(0), 500).err(), Some(LoadError::MissingFormatInfo));
}

#[test]
fn no_frames_is_an_empty_result() {
    let mut session = DecodeSession::start(Some(44_100), Some(2), 500).unwrap();
    assert_eq!(session.accept(DecodeEvent::EndOfStream), Ok(false));
    assert_eq!(session.finish().err(), Some(LoadError::EmptyDecodeResult));
}

#[test]
fn stereo_packets_fill_the_bite() {
    let mut session = DecodeSession::start(Some(1_000), Some(2), 5).unwrap();
    assert_eq!(session.accept(DecodeEvent::Frames { channels: 2, samples: vec![2, 4, 6, 8] }), Ok(true));
    assert_eq!(session.accept(DecodeEvent::SkippedPacket), Ok(true));
    assert_eq!(session.accept(DecodeEvent::Frames { channels: 2, samples: vec![-1, -2, 10, 20, 1, 1, 9, 9] }), Ok(false));
    assert!(!session.wants_more());
    assert_eq!(session.finish().unwrap().samples(), &vec![3, 7, -1, 15, 1]);
}

#[test]
fn stereo_packets_short_of_the_bite_are_padded() {
    let mut session = DecodeSession::start(Some(1_000), Some(2), 6).unwrap();
    assert_eq!(session.accept(DecodeEvent::Frames { channels: 2, samples: vec![2, 4] }), Ok(true));
    assert_eq!(session.accept(DecodeEvent::Frames { channels: 2, samples: vec![-3, -4] }), Ok(true));
    assert_eq!(session.accept(DecodeEvent::EndOfStream), Ok(false));
    let clip = session.finish().unwrap();
    assert_eq!(clip.sample_rate(), 1_000);
    assert_eq!(clip.samples(), &vec![3, -3, 0, 0, 0, 0]);
}
