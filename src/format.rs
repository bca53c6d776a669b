use vstd::prelude::*;

verus! {

/// The numeric representation of one sample as a capture device delivers it.
#[derive(Clone, Copy, Debug, PartialEq, Eq, Structural)]
pub enum SampleFormat {
    I8,
    I16,
    I32,
    I64,
    U8,
    U16,
    U32,
    U64,
    F32,
    F64,
}

/// How the samples of a WAV file are encoded.
#[derive(Clone, Copy, Debug, PartialEq, Eq, Structural)]
pub enum WavSampleFormat {
    Float,
    Int,
}

/// The stream configuration that a capture device prefers.
#[derive(Clone, Copy, Debug, PartialEq, Eq, Structural)]
pub struct StreamConfig {
    pub channels: u16,
    pub sample_rate: u32,
    pub sample_format: SampleFormat,
}

/// The header of a WAV file.
#[derive(Clone, Copy, Debug, PartialEq, Eq, Structural)]
pub struct WavSpec {
    pub channels: u16,
    pub sample_rate: u32,
    pub bits_per_sample: u16,
    pub sample_format: WavSampleFormat,
}

/// The four formats that a capture session can stream.
#[derive(Clone, Copy, Debug, PartialEq, Eq, Structural)]
pub enum StreamVariant {
    I8,
    I16,
    I32,
    F32,
}

pub open spec fn is_float_spec(f: SampleFormat) -> bool {
    f == SampleFormat::F32 || f == SampleFormat::F64
}

/// Size of one sample in bytes.
pub open spec fn sample_size_spec(f: SampleFormat) -> nat {
    match f {
        SampleFormat::I8 | SampleFormat::U8 => 1,
        SampleFormat::I16 | SampleFormat::U16 => 2,
        SampleFormat::I32 | SampleFormat::U32 | SampleFormat::F32 => 4,
        SampleFormat::I64 | SampleFormat::U64 | SampleFormat::F64 => 8,
    }
}

pub open spec fn wav_sample_format_spec(f: SampleFormat) -> WavSampleFormat {
    if is_float_spec(f) {
        WavSampleFormat::Float
    } else {
        WavSampleFormat::Int
    }
}

pub open spec fn wav_spec_spec(c: StreamConfig) -> WavSpec {
    WavSpec {
        channels: c.channels,
        sample_rate: c.sample_rate,
        bits_per_sample: (8 * sample_size_spec(c.sample_format)) as u16,
        sample_format: wav_sample_format_spec(c.sample_format),
    }
}

pub open spec fn variant_of(f: SampleFormat) -> Option<StreamVariant> {
    match f {
        SampleFormat::I8 => Some(StreamVariant::I8),
        SampleFormat::I16 => Some(StreamVariant::I16),
        SampleFormat::I32 => Some(StreamVariant::I32),
        SampleFormat::F32 => Some(StreamVariant::F32),
        _ => None,
    }
}

impl SampleFormat {
    /// Whether samples of this format are floating point.
    pub fn is_float(self) -> (r: bool)
        ensures
            r == is_float_spec(self),
    {
        match self {
            SampleFormat::F32 | SampleFormat::F64 => true,
            _ => false,
        }
    }

    /// Size of one sample of this format in bytes.
    pub fn sample_size(self) -> (r: u16)
        ensures
            r as nat == sample_size_spec(self),
    {
        match self {
            SampleFormat::I8 | SampleFormat::U8 => 1,
            SampleFormat::I16 | SampleFormat::U16 => 2,
            SampleFormat::I32 | SampleFormat::U32 | SampleFormat::F32 => 4,
            SampleFormat::I64 | SampleFormat::U64 | SampleFormat::F64 => 8,
        }
    }
}

/// The WAV encoding of a device sample format: float formats are stored as
/// IEEE floats, all others as integers.
pub fn sample_format(format: SampleFormat) -> (r: WavSampleFormat)
    ensures
        r == wav_sample_format_spec(format),
        (r == WavSampleFormat::Float) <==> is_float_spec(format),
{
    if format.is_float() {
        WavSampleFormat::Float
    } else {
        WavSampleFormat::Int
    }
}

/// The WAV header for a stream configuration: channels and rate pass through,
/// the bit depth is the sample's width and the encoding follows its kind.
pub fn wav_spec_from_config(config: &StreamConfig) -> (r: WavSpec)
    ensures
        r == wav_spec_spec(*config),
        r.channels == config.channels,
        r.sample_rate == config.sample_rate,
        r.bits_per_sample as nat == 8 * sample_size_spec(config.sample_format),
        (r.sample_format == WavSampleFormat::Float) <==> is_float_spec(config.sample_format),
{
    WavSpec {
        channels: config.channels,
        sample_rate: config.sample_rate,
        bits_per_sample: config.sample_format.sample_size() * 8,
        sample_format: sample_format(config.sample_format),
    }
}

/// The streaming variant for a device format, or `None` where the format is
/// not one of the four that a capture session supports.
pub fn stream_variant(format: SampleFormat) -> (r: Option<StreamVariant>)
    ensures
        r == variant_of(format),
{
    match format {
        SampleFormat::I8 => Some(StreamVariant::I8),
        SampleFormat::I16 => Some(StreamVariant::I16),
        SampleFormat::I32 => Some(StreamVariant::I32),
        SampleFormat::F32 => Some(StreamVariant::F32),
        _ => None,
    }
}

/// For each of the four streamable formats, the resolved header has the
/// format's canonical width (8, 16 or 32 bits) and is float-encoded exactly
/// when the format is the floating-point one.
pub proof fn lemma_supported_format_header(c: StreamConfig)
    requires
        variant_of(c.sample_format) is Some,
    ensures
        wav_spec_spec(c).bits_per_sample == match c.sample_format {
            SampleFormat::I8 => 8u16,
            SampleFormat::I16 => 16u16,
            _ => 32u16,
        },
        (wav_spec_spec(c).sample_format == WavSampleFormat::Float) <==> (c.sample_format
            == SampleFormat::F32),
        wav_spec_spec(c).channels == c.channels,
        wav_spec_spec(c).sample_rate == c.sample_rate,
{
}

} // verus!
