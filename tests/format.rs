use acap::format::{
    sample_format, stream_variant, wav_spec_from_config, SampleFormat, StreamConfig, StreamVariant,
    WavSampleFormat,
};

fn config(f: SampleFormat) -> StreamConfig {
    StreamConfig { channels: 2, sample_rate: 44100, sample_format: f }
}

#[test]
fn supported_formats_resolve_to_canonical_width() {
    let cases = [
        (SampleFormat::I8, 8u16, WavSampleFormat::Int),
        (SampleFormat::I16, 16, WavSampleFormat::Int),
        (SampleFormat::I32, 32, WavSampleFormat::Int),
        (SampleFormat::F32, 32, WavSampleFormat::Float),
    ];
    for (f, bits, enc) in cases {
        let spec = wav_spec_from_config(&config(f));
        assert_eq!(spec.channels, 2);
        assert_eq!(spec.sample_rate, 44100);
        assert_eq!(spec.bits_per_sample, bits);
        assert_eq!(spec.sample_format, enc);
    }
}

#[test]
fn wide_formats_resolve_too() {
    assert_eq!(wav_spec_from_config(&config(SampleFormat::F64)).bits_per_sample, 64);
    assert_eq!(wav_spec_from_config(&config(SampleFormat::U8)).bits_per_sample, 8);
    assert_eq!(sample_format(SampleFormat::F64), WavSampleFormat::Float);
    assert_eq!(sample_format(SampleFormat::U16), WavSampleFormat::Int);
}

#[test]
fn only_four_formats_stream() {
    assert_eq!(stream_variant(SampleFormat::I8), Some(StreamVariant::I8));
    assert_eq!(stream_variant(SampleFormat::I16), Some(StreamVariant::I16));
    assert_eq!(stream_variant(SampleFormat::I32), Some(StreamVariant::I32));
    assert_eq!(stream_variant(SampleFormat::F32), Some(StreamVariant::F32));
    assert_eq!(stream_variant(SampleFormat::U8), None);
    assert_eq!(stream_variant(SampleFormat::I64), None);
    assert_eq!(stream_variant(SampleFormat::F64), None);
}
