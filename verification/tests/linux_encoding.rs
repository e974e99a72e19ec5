use opensnipping::capture::linux::encoding::{
    first_available, AAC_ENCODERS, H264_ENCODERS, OPUS_ENCODERS,
};
use opensnipping::capture::linux::{
    detect_available_audio_encoder, detect_available_encoder, get_muxer_for_container,
    get_system_audio_source, CodecRegistry,
};
use opensnipping::config::{AudioConfig, ContainerFormat};

fn registry_of(names: &[&str]) -> CodecRegistry {
    let mut registry = CodecRegistry::new();
    for name in names {
        registry.register(name);
    }
    registry
}

/// The registries that the detection tests run against: nothing, each
/// candidate alone, everything, and elements that are no candidates.
fn sample_registries() -> Vec<CodecRegistry> {
    let mut samples = vec![registry_of(&[]), registry_of(&["pngenc", "videoconvert"])];
    let mut all: Vec<&str> = Vec::new();
    for name in H264_ENCODERS.iter().chain(AAC_ENCODERS.iter()).chain(OPUS_ENCODERS.iter()) {
        samples.push(registry_of(&[name]));
        all.push(name);
    }
    samples.push(registry_of(&all));
    samples
}

#[test]
fn tests_test_detect_available_encoder_returns_valid_element() {
    // This test verifies that if an encoder is found, it's one we expect
    for registry in sample_registries() {
        if let Some(encoder) = detect_available_encoder(&registry) {
            assert!(
                H264_ENCODERS.contains(&encoder),
                "Detected encoder '{}' should be in our known list",
                encoder
            );
        }
    }
}

#[test]
fn linux_test_detect_available_encoder_returns_valid_element() {
    let registry = registry_of(&["nvh264enc", "x264enc"]);
    if let Some(encoder) = detect_available_encoder(&registry) {
        assert!(
            H264_ENCODERS.contains(&encoder),
            "Detected encoder '{}' should be in our known list",
            encoder
        );
    }
}

#[test]
fn tests_test_muxer_for_mp4() {
    assert_eq!(get_muxer_for_container(ContainerFormat::Mp4), "mp4mux");
}

#[test]
fn linux_test_muxer_for_mp4() {
    assert_eq!(get_muxer_for_container(ContainerFormat::Mp4), "mp4mux");
}

#[test]
fn tests_test_muxer_for_mkv() {
    assert_eq!(get_muxer_for_container(ContainerFormat::Mkv), "matroskamux");
}

#[test]
fn linux_test_muxer_for_mkv() {
    assert_eq!(get_muxer_for_container(ContainerFormat::Mkv), "matroskamux");
}

#[test]
fn tests_test_detect_audio_encoder_mp4_returns_aac() {
    // Where the registry offers an AAC encoder, the encoder found for MP4 is
    // an AAC encoder; Opus is the fallback for a registry without one.
    for registry in sample_registries() {
        let offers_aac = AAC_ENCODERS.iter().any(|name| registry.can_instantiate(name));
        match detect_available_audio_encoder(ContainerFormat::Mp4, &registry) {
            Some(encoder) if offers_aac => assert!(
                AAC_ENCODERS.contains(&encoder),
                "MP4 audio encoder '{}' should be an AAC encoder",
                encoder
            ),
            Some(encoder) => assert!(
                OPUS_ENCODERS.contains(&encoder),
                "MP4 audio encoder '{}' should be the Opus fallback",
                encoder
            ),
            None => assert!(!offers_aac),
        }
    }
}

#[test]
fn linux_test_detect_audio_encoder_mp4_returns_aac() {
    let registry = registry_of(&["opusenc", "avenc_aac"]);
    if let Some(encoder) = detect_available_audio_encoder(ContainerFormat::Mp4, &registry) {
        assert!(
            AAC_ENCODERS.contains(&encoder),
            "MP4 audio encoder '{}' should be an AAC encoder",
            encoder
        );
    }
}

#[test]
fn tests_test_detect_audio_encoder_mkv_returns_opus_or_aac() {
    // If an audio encoder is found for MKV, it should be Opus or AAC (fallback)
    for registry in sample_registries() {
        if let Some(encoder) = detect_available_audio_encoder(ContainerFormat::Mkv, &registry) {
            let is_valid = OPUS_ENCODERS.contains(&encoder) || AAC_ENCODERS.contains(&encoder);
            assert!(
                is_valid,
                "MKV audio encoder '{}' should be Opus or AAC",
                encoder
            );
        }
    }
}

#[test]
fn linux_test_detect_audio_encoder_mkv_returns_opus_or_aac() {
    let registry = registry_of(&["voaacenc"]);
    if let Some(encoder) = detect_available_audio_encoder(ContainerFormat::Mkv, &registry) {
        let is_valid = OPUS_ENCODERS.contains(&encoder) || AAC_ENCODERS.contains(&encoder);
        assert!(
            is_valid,
            "MKV audio encoder '{}' should be Opus or AAC",
            encoder
        );
    }
}

// --- Encoder/Muxer selection tests ---

#[test]
fn tests_test_h264_encoders_preference_order() {
    // Verify the encoder list has correct priority: HW first, then SW fallback
    assert_eq!(
        H264_ENCODERS[0], "vaapih264enc",
        "VA-API should be first (Intel/AMD iGPU)"
    );
    assert_eq!(
        H264_ENCODERS[1], "nvh264enc",
        "NVENC should be second (NVIDIA)"
    );
    assert_eq!(
        H264_ENCODERS[2], "x264enc",
        "x264 should be last (SW fallback)"
    );
}

#[test]
fn linux_test_h264_encoders_preference_order() {
    assert_eq!(
        H264_ENCODERS[0], "vaapih264enc",
        "VA-API should be first (Intel/AMD iGPU)"
    );
    assert_eq!(
        H264_ENCODERS[1], "nvh264enc",
        "NVENC should be second (NVIDIA)"
    );
    assert_eq!(
        H264_ENCODERS[2], "x264enc",
        "x264 should be last (SW fallback)"
    );
}

#[test]
fn tests_test_muxer_selection_is_deterministic() {
    // Calling get_muxer_for_container multiple times with same input yields same output
    for _ in 0..10 {
        assert_eq!(get_muxer_for_container(ContainerFormat::Mp4), "mp4mux");
        assert_eq!(get_muxer_for_container(ContainerFormat::Mkv), "matroskamux");
    }
}

#[test]
fn linux_test_muxer_selection_is_deterministic() {
    for _ in 0..10 {
        assert_eq!(get_muxer_for_container(ContainerFormat::Mp4), "mp4mux");
        assert_eq!(get_muxer_for_container(ContainerFormat::Mkv), "matroskamux");
    }
}

#[test]
fn tests_test_encoder_detection_is_deterministic() {
    // If an encoder is found, calling detect_available_encoder multiple times
    // should return the same encoder (highest-priority available)
    for registry in sample_registries() {
        let first_result = detect_available_encoder(&registry);
        for _ in 0..5 {
            assert_eq!(
                detect_available_encoder(&registry),
                first_result,
                "Encoder detection should be deterministic"
            );
        }
    }
}

#[test]
fn linux_test_encoder_detection_is_deterministic() {
    let registry = registry_of(&["x264enc", "vaapih264enc"]);
    let first_result = detect_available_encoder(&registry);
    for _ in 0..5 {
        assert_eq!(
            detect_available_encoder(&registry),
            first_result,
            "Encoder detection should be deterministic"
        );
    }
}

#[test]
fn tests_test_all_container_formats_have_muxers() {
    // Ensure every ContainerFormat variant has a corresponding muxer
    let formats = [ContainerFormat::Mp4, ContainerFormat::Mkv];
    for format in formats {
        let muxer = get_muxer_for_container(format);
        assert!(
            !muxer.is_empty(),
            "Container format {:?} should have a non-empty muxer",
            format
        );
    }
}

#[test]
fn linux_test_all_container_formats_have_muxers() {
    let formats = [ContainerFormat::Mp4, ContainerFormat::Mkv];
    for format in formats {
        let muxer = get_muxer_for_container(format);
        assert!(
            !muxer.is_empty(),
            "Container format {:?} should have a non-empty muxer",
            format
        );
    }
}

// --- System audio capture tests ---

#[test]
fn tests_test_get_system_audio_source_returns_default_monitor() {
    // Verify the system audio source is the PulseAudio default monitor
    let source = get_system_audio_source();
    assert_eq!(
        source, "@DEFAULT_MONITOR@",
        "System audio source should be @DEFAULT_MONITOR@"
    );
}

#[test]
fn linux_test_get_system_audio_source_returns_default_monitor() {
    let source = get_system_audio_source();
    assert_eq!(
        source, "@DEFAULT_MONITOR@",
        "System audio source should be @DEFAULT_MONITOR@"
    );
}

#[test]
fn tests_test_system_audio_source_is_constant() {
    // Verify the system audio source is deterministic
    for _ in 0..10 {
        assert_eq!(
            get_system_audio_source(),
            "@DEFAULT_MONITOR@",
            "System audio source should be constant"
        );
    }
}

#[test]
fn linux_test_system_audio_source_is_constant() {
    for _ in 0..10 {
        assert_eq!(
            get_system_audio_source(),
            "@DEFAULT_MONITOR@",
            "System audio source should be constant"
        );
    }
}

// --- Audio mixing configuration tests ---

#[test]
fn test_audio_config_mic_only() {
    let audio = AudioConfig {
        mic: true,
        system: false,
    };
    assert!(audio.mic, "Mic should be enabled");
    assert!(!audio.system, "System should be disabled");
}

#[test]
fn test_audio_config_system_only() {
    let audio = AudioConfig {
        mic: false,
        system: true,
    };
    assert!(!audio.mic, "Mic should be disabled");
    assert!(audio.system, "System should be enabled");
}

#[test]
fn test_audio_config_both_enabled() {
    let audio = AudioConfig {
        mic: true,
        system: true,
    };
    assert!(audio.mic, "Mic should be enabled");
    assert!(audio.system, "System should be enabled");
    // When both are enabled, the pipeline uses audiomixer to combine sources
}

#[test]
fn test_audio_config_matrix() {
    // Test all 4 combinations of mic/system audio
    let configs = [
        (
            AudioConfig {
                mic: false,
                system: false,
            },
            "no audio",
        ),
        (
            AudioConfig {
                mic: true,
                system: false,
            },
            "mic only",
        ),
        (
            AudioConfig {
                mic: false,
                system: true,
            },
            "system only",
        ),
        (
            AudioConfig {
                mic: true,
                system: true,
            },
            "mic + system (mixed)",
        ),
    ];

    for (config, description) in configs {
        // Just verify the configs can be created and have expected values
        let has_any = config.mic || config.system;
        let has_both = config.mic && config.system;

        match description {
            "no audio" => {
                assert!(!has_any, "No audio config should have no sources");
            }
            "mic only" => {
                assert!(has_any && !has_both, "Mic only should have one source");
                assert!(config.mic, "Should have mic enabled");
            }
            "system only" => {
                assert!(has_any && !has_both, "System only should have one source");
                assert!(config.system, "Should have system enabled");
            }
            "mic + system (mixed)" => {
                assert!(has_both, "Mixed audio should have both sources");
            }
            _ => panic!("Unknown config"),
        }
    }
}

#[test]
fn linux_test_audio_config_combinations() {
    let no_audio = AudioConfig { system: false, mic: false };
    let mic_only = AudioConfig { system: false, mic: true };
    let system_only = AudioConfig { system: true, mic: false };
    let both_audio = AudioConfig { system: true, mic: true };

    assert!(!no_audio.system && !no_audio.mic);
    assert!(!mic_only.system && mic_only.mic);
    assert!(system_only.system && !system_only.mic);
    assert!(both_audio.system && both_audio.mic);
}

// --- Negotiation against given registries ---

#[test]
fn an_empty_registry_offers_nothing() {
    let registry = CodecRegistry::new();
    assert_eq!(detect_available_encoder(&registry), None);
    assert_eq!(detect_available_audio_encoder(ContainerFormat::Mp4, &registry), None);
    assert_eq!(detect_available_audio_encoder(ContainerFormat::Mkv, &registry), None);
    assert!(!registry.can_instantiate("x264enc"));
}

#[test]
fn hardware_encoders_win_over_software() {
    assert_eq!(
        detect_available_encoder(&registry_of(&["x264enc", "nvh264enc", "vaapih264enc"])),
        Some("vaapih264enc")
    );
    assert_eq!(
        detect_available_encoder(&registry_of(&["x264enc", "nvh264enc"])),
        Some("nvh264enc")
    );
    assert_eq!(detect_available_encoder(&registry_of(&["x264enc"])), Some("x264enc"));
}

#[test]
fn an_element_that_is_no_candidate_is_never_chosen() {
    let registry = registry_of(&["openh264enc", "x264", "x264enc2", "lamemp3enc"]);
    assert_eq!(detect_available_encoder(&registry), None);
    assert_eq!(detect_available_audio_encoder(ContainerFormat::Mkv, &registry), None);
}

#[test]
fn mp4_takes_the_first_available_aac_encoder() {
    assert_eq!(
        detect_available_audio_encoder(
            ContainerFormat::Mp4,
            &registry_of(&["avenc_aac", "voaacenc", "fdkaacenc"])
        ),
        Some("fdkaacenc")
    );
    assert_eq!(
        detect_available_audio_encoder(
            ContainerFormat::Mp4,
            &registry_of(&["avenc_aac", "voaacenc"])
        ),
        Some("voaacenc")
    );
    assert_eq!(
        detect_available_audio_encoder(ContainerFormat::Mp4, &registry_of(&["avenc_aac"])),
        Some("avenc_aac")
    );
}

#[test]
fn mp4_prefers_aac_and_falls_back_to_opus() {
    assert_eq!(
        detect_available_audio_encoder(ContainerFormat::Mp4, &registry_of(&["opusenc"])),
        Some("opusenc")
    );
    assert_eq!(
        detect_available_audio_encoder(
            ContainerFormat::Mp4,
            &registry_of(&["opusenc", "avenc_aac"])
        ),
        Some("avenc_aac")
    );
    assert_eq!(
        detect_available_audio_encoder(ContainerFormat::Mp4, &registry_of(&["x264enc"])),
        None
    );
}

#[test]
fn mkv_prefers_opus_and_falls_back_to_aac() {
    assert_eq!(
        detect_available_audio_encoder(
            ContainerFormat::Mkv,
            &registry_of(&["fdkaacenc", "opusenc"])
        ),
        Some("opusenc")
    );
    assert_eq!(
        detect_available_audio_encoder(
            ContainerFormat::Mkv,
            &registry_of(&["avenc_aac", "voaacenc"])
        ),
        Some("voaacenc")
    );
    assert_eq!(
        detect_available_audio_encoder(ContainerFormat::Mkv, &registry_of(&["x264enc"])),
        None
    );
}

#[test]
fn first_available_follows_the_order_of_the_candidates() {
    let registry = registry_of(&["b", "c"]);
    assert_eq!(first_available(&["a", "b", "c"], &registry), Some("b"));
    assert_eq!(first_available(&["c", "b", "a"], &registry), Some("c"));
    assert_eq!(first_available(&["a", "d"], &registry), None);
    assert_eq!(first_available(&[], &registry), None);
}

#[test]
fn registering_an_element_makes_it_instantiable() {
    let mut registry = CodecRegistry::new();
    assert!(!registry.can_instantiate("opusenc"));
    registry.register("opusenc");
    assert!(registry.can_instantiate("opusenc"));
    assert!(!registry.can_instantiate("opus"));
    registry.register("opusenc");
    assert!(registry.can_instantiate("opusenc"));
}
