use openwah::clip::{LoadError, SampleClip};
use openwah::instrument::{clamp_bite_ms, Instrument, Refresh, DEFAULT_BITE_MS};

fn tone() -> SampleClip {
    SampleClip::fitted(44_100, vec![5; 100], DEFAULT_BITE_MS).unwrap()
}

#[test]
fn failed_open_keeps_current_clip() {
    let mut inst = Instrument::new(tone());
    let before = inst.current().samples().clone();
    assert_eq!(inst.apply_load("missing.wav".to_string(), Err(LoadError::OpenError)), Err(LoadError::OpenError));
    assert_eq!(inst.current().samples(), &before);
    assert_eq!(inst.current().sample_rate(), 44_100);
    assert!(inst.selected_path().is_none());
}

#[test]
fn successful_load_replaces_clip() {
    let mut inst = Instrument::new(tone());
    let clip = SampleClip::fitted(48_000, vec![9; 10], 500).unwrap();
    assert_eq!(inst.apply_load("a.wav".to_string(), Ok(clip)), Ok(()));
    assert_eq!(inst.current().sample_rate(), 48_000);
    assert_eq!(inst.current().len(), 24_000);
    assert_eq!(inst.selected_path().map(|s| s.as_str()), Some("a.wav"));
    assert_eq!(inst.apply_load("b.wav".to_string(), Err(LoadError::ProbeError)), Err(LoadError::ProbeError));
    assert_eq!(inst.selected_path().map(|s| s.as_str()), Some("a.wav"));
    inst.apply_tone(tone());
    assert!(inst.selected_path().is_none());
}

#[test]
fn bite_duration_is_clamped() {
    assert_eq!(clamp_bite_ms(0), 500);
    assert_eq!(clamp_bite_ms(1_200), 1_200);
    assert_eq!(clamp_bite_ms(9_000), 5_000);
    let mut inst = Instrument::new(tone());
    assert_eq!(inst.bite_ms(), 500);
    assert!(!inst.set_bite_ms(100));
    assert!(inst.set_bite_ms(2_000));
    assert_eq!(inst.bite_ms(), 2_000);
}

#[test]
fn refresh_reloads_file_or_makes_tone() {
    let mut inst = Instrument::new(tone());
    assert!(inst.set_bite_ms(1_500));
    assert_eq!(inst.refresh(), Refresh::Tone(1_500));
    let clip = SampleClip::fitted(48_000, vec![1], 1_500).unwrap();
    assert_eq!(inst.apply_load("song.wav".to_string(), Ok(clip)), Ok(()));
    assert_eq!(inst.refresh(), Refresh::Reload("song.wav".to_string()));
}
