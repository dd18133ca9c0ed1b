//! The data format fixed on the boundary between the generator and the sink.

use vstd::prelude::*;

verus! {

/// The media type of the format.
pub const MEDIA_TYPE: &'static str = "audio/x-raw";

/// The largest sample rate that a descriptor of the sink admits.
pub const MAX_RATE: u32 = 2147483647;

/// How one sample is encoded.
#[derive(Clone, Copy, Debug, PartialEq, Eq)]
pub enum SampleEncoding {
    /// Signed 16-bit integers.
    SignedInt16,
}

impl SampleEncoding {
    /// The number of bytes that one sample takes.
    pub fn width(&self) -> (bytes: usize)
        ensures
            bytes == 2,
    {
        match self {
            SampleEncoding::SignedInt16 => 2,
        }
    }
}

/// How the samples of several channels are laid out.
#[derive(Clone, Copy, Debug, PartialEq, Eq)]
pub enum ChannelLayout {
    /// The samples of one instant follow each other, channel by channel.
    Interleaved,
}

impl ChannelLayout {
    /// The name of the layout in a format description.
    pub fn name(&self) -> (text: &'static str)
        ensures
            text@ == "interleaved"@,
    {
        match self {
            ChannelLayout::Interleaved => "interleaved",
        }
    }
}

/// The sample rates that a format admits, both ends included.
#[derive(Clone, Copy, Debug, PartialEq, Eq)]
pub struct RateRange {
    pub min: u32,
    pub max: u32,
}

/// A negotiated format: what the producer may send and the consumer reads.
#[derive(Clone, Copy, Debug, PartialEq, Eq)]
pub struct CapabilityDescriptor {
    pub encoding: SampleEncoding,
    pub layout: ChannelLayout,
    pub channels: u32,
    pub rate_range: RateRange,
}

impl CapabilityDescriptor {
    /// A descriptor is well formed if it has a channel and its rates are
    /// positive and form a range.
    pub open spec fn wf(self) -> bool {
        &&& self.channels >= 1
        &&& self.rate_range.min >= 1
        &&& self.rate_range.max >= self.rate_range.min
    }

    /// The format that the sink asks for: one channel of interleaved signed
    /// 16-bit samples at any positive rate up to `MAX_RATE`.
    pub open spec fn sink_format_spec() -> CapabilityDescriptor {
        CapabilityDescriptor {
            encoding: SampleEncoding::SignedInt16,
            layout: ChannelLayout::Interleaved,
            channels: 1,
            rate_range: RateRange { min: 1, max: MAX_RATE },
        }
    }

    /// Whether `rate` lies in the range of the descriptor.
    pub open spec fn admits(self, rate: u32) -> bool {
        self.rate_range.min <= rate <= self.rate_range.max
    }

    /// Makes a descriptor of signed 16-bit interleaved samples, if the
    /// channel count and the rates are well formed.
    pub fn new(channels: u32, min_rate: u32, max_rate: u32) -> (made: Option<CapabilityDescriptor>)
        ensures
            made is Some <==> channels >= 1 && min_rate >= 1 && max_rate >= min_rate,
            made matches Some(caps) ==> caps.wf() && caps == (CapabilityDescriptor {
                encoding: SampleEncoding::SignedInt16,
                layout: ChannelLayout::Interleaved,
                channels,
                rate_range: RateRange { min: min_rate, max: max_rate },
            }),
    {
        if channels >= 1 && min_rate >= 1 && max_rate >= min_rate {
            Some(
                CapabilityDescriptor {
                    encoding: SampleEncoding::SignedInt16,
                    layout: ChannelLayout::Interleaved,
                    channels,
                    rate_range: RateRange { min: min_rate, max: max_rate },
                },
            )
        } else {
            None
        }
    }

    /// The format that the sink asks for. It admits every positive rate up
    /// to `MAX_RATE` and no other.
    pub fn sink_format() -> (caps: CapabilityDescriptor)
        ensures
            caps == CapabilityDescriptor::sink_format_spec(),
            caps.wf(),
            forall|rate: u32| #[trigger] caps.admits(rate) <==> 1 <= rate <= MAX_RATE,
    {
        CapabilityDescriptor {
            encoding: SampleEncoding::SignedInt16,
            layout: ChannelLayout::Interleaved,
            channels: 1,
            rate_range: RateRange { min: 1, max: MAX_RATE },
        }
    }

    /// Whether negotiation may settle on `rate`.
    pub fn admits_rate(&self, rate: u32) -> (admitted: bool)
        ensures
            admitted == self.admits(rate),
    {
        self.rate_range.min <= rate && rate <= self.rate_range.max
    }
}

} // verus!
