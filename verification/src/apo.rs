//! The audio filter that Windows loads: what it keeps of a format, and what it does with a block.

use vstd::arithmetic::power2::pow2;
use vstd::prelude::*;

use crate::single::whole_of;
use crate::single::Single;

verus! {

/// What COM knows the filter by.
pub const APO_CLSID: u128 = 0x6b2f3c1e_8d4a_4f5b_9c2e_7a1d0e5f3b40;

/// The sample format with floating point.
pub const FLOAT_FORMAT: u128 = 0x00000003_0000_0010_8000_00aa00389b71;

pub fn clsid_text() -> (r: &'static str)
    ensures
        r@ == "{6B2F3C1E-8D4A-4F5B-9C2E-7A1D0E5F3B40}"@,
{
    "{6B2F3C1E-8D4A-4F5B-9C2E-7A1D0E5F3B40}"
}

/// What the filter keeps of the format.
#[derive(Clone, Copy, Debug, PartialEq, Eq, Structural)]
pub struct Format {
    pub channels: u32,
    pub bytes_per_sample: u32,
    pub is_float: bool,
}

impl Format {
    /// Before there is any: one channel of four bytes, and nothing is processed.
    pub fn new() -> (f: Format)
        ensures
            f == (Format { channels: 1, bytes_per_sample: 4, is_float: false }),
    {
        Format { channels: 1, bytes_per_sample: 4, is_float: false }
    }

    /// Takes over a format. Only floating point in four bytes is processed; everything else
    /// passes untouched, so that the microphone never fails.
    pub fn lock(&mut self, channels: u32, bytes_per_sample: u32, format: u128)
        ensures
            final(self).channels == if channels == 0 {
                1
            } else {
                channels
            },
            final(self).bytes_per_sample == if bytes_per_sample == 0 {
                1
            } else {
                bytes_per_sample
            },
            final(self).is_float == (format == FLOAT_FORMAT && bytes_per_sample == 4),
    {
        self.channels = if channels == 0 {
            1
        } else {
            channels
        };
        self.bytes_per_sample = if bytes_per_sample == 0 {
            1
        } else {
            bytes_per_sample
        };
        self.is_float = format == FLOAT_FORMAT && bytes_per_sample == 4;
    }

    /// The rate that the chain is made for: at least 8000.
    pub fn chain_rate(rate: Single) -> (r: Single)
        ensures
            r == rate.larger(whole_of(8000)),
    {
        rate.max(Single::whole(8000))
    }
}

/// What is to be done with a block.
#[derive(Clone, Copy, Debug, PartialEq, Eq, Structural)]
pub struct Plan {
    /// So many bytes are copied from the input to the output.
    pub copy: Option<u64>,
    /// A sign of life is given.
    pub beat: bool,
    /// The samples go through the chain.
    pub process: bool,
}

/// A block: `same_buffer` if input and output are one, `shared` if the memory is open, `valid`
/// if the block holds sound, `chain` if there is one.
pub fn plan(f: &Format, frames: u32, same_buffer: bool, shared: bool, valid: bool, chain: bool) -> (p: Plan)
    requires
        frames * f.channels * f.bytes_per_sample <= u64::MAX,
    ensures
        p.copy == if !same_buffer && frames * f.channels * f.bytes_per_sample > 0 {
            Some((frames * f.channels * f.bytes_per_sample) as u64)
        } else {
            None::<u64>
        },
        p.beat == shared,
        p.process == (shared && f.is_float && valid && frames != 0 && chain),
{
    assert(frames * f.channels <= 0xffff_ffff * 0xffff_ffff) by (nonlinear_arith)
        requires
            frames <= 0xffff_ffff,
            f.channels <= 0xffff_ffff,
    ;
    assert(0 <= frames * f.channels) by (nonlinear_arith);
    let samples: u64 = frames as u64 * f.channels as u64;
    let bytes: u64 = samples * f.bytes_per_sample as u64;
    Plan {
        copy: if !same_buffer && bytes > 0 {
            Some(bytes)
        } else {
            None
        },
        beat: shared,
        process: shared && f.is_float && valid && frames != 0 && chain,
    }
}

/// What COM is answered when it asks for the factory.
#[derive(Clone, Copy, Debug, PartialEq, Eq, Structural)]
pub enum ClassAnswer {
    NullPointer,
    NotAvailable,
    Factory,
}

/// `pointers` if none of them is null.
pub fn class_object(pointers: bool, clsid: u128) -> (r: ClassAnswer)
    ensures
        r == if !pointers {
            ClassAnswer::NullPointer
        } else if clsid != APO_CLSID {
            ClassAnswer::NotAvailable
        } else {
            ClassAnswer::Factory
        },
{
    if !pointers {
        ClassAnswer::NullPointer
    } else if clsid != APO_CLSID {
        ClassAnswer::NotAvailable
    } else {
        ClassAnswer::Factory
    }
}

/// Only sound in floating point of four bytes is processed, and only with a chain, a connection and
/// sound in the block; everything else passes as it is, whole.
pub proof fn law_everything_else_passes(
    f: &mut Format,
    channels: u32,
    bytes: u32,
    format: u128,
    frames: u32,
    same_buffer: bool,
    shared: bool,
    valid: bool,
    chain: bool,
    p: Plan,
)
    requires
        call_ensures(Format::lock, (f, channels, bytes, format), ()),
        frames * final(f).channels * final(f).bytes_per_sample <= u64::MAX,
        call_ensures(plan, (&*final(f), frames, same_buffer, shared, valid, chain), p),
    ensures
        p.process <==> shared && valid && chain && frames > 0 && bytes == 4 && format == 0x00000003_0000_0010_8000_00aa00389b71,
        p.beat == shared,
        same_buffer ==> p.copy is None,
        !same_buffer && frames > 0 && channels > 0 && bytes > 0 ==> p.copy == Some((frames * channels * bytes) as u64),
        final(f).channels >= 1 && final(f).bytes_per_sample >= 1,
{
    if frames > 0 && channels > 0 && bytes > 0 {
        assert(frames * channels * bytes > 0) by (nonlinear_arith)
            requires
                frames > 0,
                channels > 0,
                bytes > 0,
        ;
    }
}

/// The chain is made for the rate of the device, but for no less than 8000.
pub proof fn law_rate_of_the_chain(rate: Single, r: Single)
    requires
        call_ensures(Format::chain_rate, (rate,), r),
        !rate.nan(),
    ensures
        rate.val() >= 8000 * pow2(149) ==> r == rate,
        rate.val() < 8000 * pow2(149) ==> r.val() == 8000 * pow2(149),
{
    crate::single::lemma_whole_val(8000);
}

/// The factory is there for the one id of the filter only.
pub proof fn law_factory_is_for_the_filter(pointers: bool, clsid: u128, r: ClassAnswer)
    requires
        call_ensures(class_object, (pointers, clsid), r),
    ensures
        r == ClassAnswer::Factory <==> pointers && clsid == 0x6b2f3c1e_8d4a_4f5b_9c2e_7a1d0e5f3b40,
        r == ClassAnswer::NullPointer <==> !pointers,
{
}

} // verus!
