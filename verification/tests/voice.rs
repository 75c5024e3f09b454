use rawdio::{Phase, RenderSegment, SegmentGain, Voice};

#[test]
fn a_new_voice_is_silent() {
    let mut voice = Voice::new();
    assert!(voice.is_stopped());
    assert_eq!(voice.get_position(), 0);
    assert!(voice.render(64, 1_000, 10).is_empty());
}

#[test]
fn a_playing_voice_fills_the_output() {
    let mut voice = Voice::new();
    voice.start_from_position(0);
    assert_eq!(voice.phase(), Phase::Playing);
    let segments = voice.render(256, 1_000, 10);
    assert_eq!(
        segments,
        vec![RenderSegment { destination_offset: 0, source_position: 0, frame_count: 256, gain: SegmentGain::Unity }]
    );
    assert_eq!(voice.get_position(), 256);
}

#[test]
fn a_voice_that_starts_later_fades_in_then_plays() {
    let mut voice = Voice::new();
    voice.start_from_position(100);
    assert_eq!(voice.phase(), Phase::FadingIn(0));
    let segments = voice.render(64, 1_000, 10);
    assert_eq!(
        segments,
        vec![
            RenderSegment { destination_offset: 0, source_position: 100, frame_count: 10, gain: SegmentGain::FadeIn(0) },
            RenderSegment { destination_offset: 10, source_position: 110, frame_count: 54, gain: SegmentGain::Unity },
        ]
    );
    assert_eq!(voice.phase(), Phase::Playing);
    assert_eq!(voice.get_position(), 164);
}

#[test]
fn a_fade_out_ends_in_silence() {
    let mut voice = Voice::new();
    voice.start_from_position(0);
    voice.stop();
    assert_eq!(voice.phase(), Phase::FadingOut(0));
    let segments = voice.render(4, 1_000, 10);
    assert_eq!(
        segments,
        vec![RenderSegment { destination_offset: 0, source_position: 0, frame_count: 4, gain: SegmentGain::FadeOut(0) }]
    );
    assert_eq!(voice.phase(), Phase::FadingOut(4));
    let segments = voice.render(64, 1_000, 10);
    assert_eq!(segments.len(), 1);
    assert_eq!(segments[0].frame_count, 6);
    assert!(voice.is_stopped());
    voice.stop();
    assert!(voice.is_stopped());
}

#[test]
fn a_voice_stops_reading_at_the_end_of_the_sample() {
    let mut voice = Voice::new();
    voice.start_from_position(0);
    let segments = voice.render(100, 30, 10);
    assert_eq!(segments.len(), 1);
    assert_eq!(segments[0].frame_count, 30);
    assert_eq!(voice.get_position(), 100);
    assert!(voice.render(10, 30, 10).is_empty());
}

#[test]
fn render_helpers_cover_what_lies_within_the_sample() {
    let mut voice = Voice::new();
    voice.start_from_position(90);
    let playing = voice.render_playing(5, 20, 100);
    assert_eq!(
        playing,
        Some(RenderSegment { destination_offset: 5, source_position: 90, frame_count: 10, gain: SegmentGain::Unity })
    );
    let (frames, fade) = voice.render_fade(0, 20, 100, 8, 2, false);
    assert_eq!(frames, 6);
    assert_eq!(
        fade,
        Some(RenderSegment { destination_offset: 0, source_position: 90, frame_count: 6, gain: SegmentGain::FadeOut(2) })
    );
    voice.start_from_position(200);
    assert_eq!(voice.render_playing(0, 20, 100), None);
}
