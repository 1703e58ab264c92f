//! Reduction of a requested bit rate to a hardware baud-rate divider, and the
//! chip-select delay cycle count.

use vstd::arithmetic::div_mod::{
    lemma_div_is_ordered, lemma_div_multiples_vanish, lemma_fundamental_div_mod, lemma_mod_bound,
};
use vstd::arithmetic::mul::lemma_mul_inequality;
use vstd::prelude::*;

use crate::error::ConfigError;

verus! {

/// Baud-rate divider codes: the kernel clock is divided by one value from a
/// fixed ladder of powers of two to produce the bus clock.
#[derive(Clone, Copy, Debug, PartialEq, Eq, Structural)]
pub enum DivisorCode {
    Div2,
    Div4,
    Div8,
    Div16,
    Div32,
    Div64,
    Div128,
    Div256,
}

impl DivisorCode {
    /// The division factor this code selects.
    pub open spec fn spec_value(self) -> int {
        match self {
            DivisorCode::Div2 => 2,
            DivisorCode::Div4 => 4,
            DivisorCode::Div8 => 8,
            DivisorCode::Div16 => 16,
            DivisorCode::Div32 => 32,
            DivisorCode::Div64 => 64,
            DivisorCode::Div128 => 128,
            DivisorCode::Div256 => 256,
        }
    }

    pub fn value(self) -> (r: u16)
        ensures
            r as int == self.spec_value(),
    {
        match self {
            DivisorCode::Div2 => 2,
            DivisorCode::Div4 => 4,
            DivisorCode::Div8 => 8,
            DivisorCode::Div16 => 16,
            DivisorCode::Div32 => 32,
            DivisorCode::Div64 => 64,
            DivisorCode::Div128 => 128,
            DivisorCode::Div256 => 256,
        }
    }

    /// The three-bit encoding of this code in the master-baud-rate register
    /// field: the exponent of the division factor, less one.
    pub open spec fn spec_field_bits(self) -> u32 {
        match self {
            DivisorCode::Div2 => 0,
            DivisorCode::Div4 => 1,
            DivisorCode::Div8 => 2,
            DivisorCode::Div16 => 3,
            DivisorCode::Div32 => 4,
            DivisorCode::Div64 => 5,
            DivisorCode::Div128 => 6,
            DivisorCode::Div256 => 7,
        }
    }

    pub fn field_bits(self) -> (r: u32)
        ensures
            r == self.spec_field_bits(),
    {
        match self {
            DivisorCode::Div2 => 0,
            DivisorCode::Div4 => 1,
            DivisorCode::Div8 => 2,
            DivisorCode::Div16 => 3,
            DivisorCode::Div32 => 4,
            DivisorCode::Div64 => 5,
            DivisorCode::Div128 => 6,
            DivisorCode::Div256 => 7,
        }
    }
}

/// The divider the ladder assigns to a kernel-to-request frequency ratio
/// (meaningful for `ratio >= 1`): the ratio is rounded to the nearest ladder
/// power of two, halfway cases upward.
pub open spec fn spec_divisor_for_ratio(ratio: int) -> DivisorCode {
    if ratio <= 2 {
        DivisorCode::Div2
    } else if ratio <= 5 {
        DivisorCode::Div4
    } else if ratio <= 11 {
        DivisorCode::Div8
    } else if ratio <= 23 {
        DivisorCode::Div16
    } else if ratio <= 47 {
        DivisorCode::Div32
    } else if ratio <= 95 {
        DivisorCode::Div64
    } else if ratio <= 191 {
        DivisorCode::Div128
    } else {
        DivisorCode::Div256
    }
}

/// Selects the baud-rate divider for a kernel clock of `kernel` Hz and a
/// requested bit rate of `request` Hz.
///
/// A request of zero, or one above the kernel rate (an integer ratio of zero),
/// is rejected explicitly: no divider in the ladder can serve it.
pub fn divisor_for(kernel: u32, request: u32) -> (r: Result<DivisorCode, ConfigError>)
    ensures
        r is Err <==> request == 0 || request > kernel,
        r is Err ==> r == Err::<DivisorCode, ConfigError>(ConfigError::InvalidFrequency),
        r matches Ok(d) ==> d == spec_divisor_for_ratio(kernel as int / request as int),
{
    if request == 0 || request > kernel {
        return Err(ConfigError::InvalidFrequency);
    }
    let ratio = kernel / request;
    Ok(
        if ratio <= 2 {
            DivisorCode::Div2
        } else if ratio <= 5 {
            DivisorCode::Div4
        } else if ratio <= 11 {
            DivisorCode::Div8
        } else if ratio <= 23 {
            DivisorCode::Div16
        } else if ratio <= 47 {
            DivisorCode::Div32
        } else if ratio <= 95 {
            DivisorCode::Div64
        } else if ratio <= 191 {
            DivisorCode::Div128
        } else {
            DivisorCode::Div256
        },
    )
}

/// The bus bit rate that `code` yields from a kernel clock of `kernel` Hz,
/// rounded down to whole Hz.
pub fn actual_rate(kernel: u32, code: DivisorCode) -> (r: u32)
    ensures
        r as int == kernel as int / code.spec_value(),
{
    kernel / (code.value() as u32)
}

/// No ladder divider smaller than the resolved one meets the request: for any
/// positive request at most the kernel rate, dividing the kernel clock by a
/// smaller ladder value leaves the bus rate strictly above the request.
pub proof fn lemma_divisor_tightest(kernel: int, request: int)
    requires
        0 < request <= kernel,
    ensures
        forall|d: DivisorCode|
            #[trigger] d.spec_value() < spec_divisor_for_ratio(kernel / request).spec_value()
                ==> kernel > request * d.spec_value(),
{
    let q = kernel / request;
    lemma_fundamental_div_mod(kernel, request);
    lemma_mod_bound(kernel, request);
    assert(kernel >= request * q);
    assert forall|d: DivisorCode|
        #[trigger] d.spec_value() < spec_divisor_for_ratio(kernel / request).spec_value()
            implies kernel > request * d.spec_value() by {
        let v = d.spec_value();
        // Every ladder band starts strictly above half its own divider, the
        // next smaller ladder value, so the ratio exceeds every smaller
        // ladder value.
        assert(q > v);
        lemma_mul_inequality(v + 1, q, request);
        assert(request * (v + 1) == request * v + request) by (nonlinear_arith);
        assert((v + 1) * request == request * (v + 1)) by (nonlinear_arith);
        assert(request * q == q * request) by (nonlinear_arith);
    }
}

/// The resolved bus rate does not exceed the request whenever the ratio of
/// kernel rate to request rounds up onto the next ladder step, or divides the
/// kernel rate exactly and is itself a ladder value.
///
/// The restriction is necessary: the ladder rounds the ratio to the *nearest*
/// power of two, so in the upper half of each band the programmed rate comes
/// out above the request (a kernel of 500 Hz with a request of 100 Hz has
/// ratio 5, divider 4, and a bus rate of 125 Hz).
pub proof fn lemma_divisor_conservative(kernel: int, request: int)
    requires
        0 < request <= kernel,
        kernel / request < spec_divisor_for_ratio(kernel / request).spec_value() || (kernel == (
        kernel / request) * request && kernel / request == spec_divisor_for_ratio(
            kernel / request,
        ).spec_value()),
    ensures
        kernel <= request * spec_divisor_for_ratio(kernel / request).spec_value(),
        kernel / spec_divisor_for_ratio(kernel / request).spec_value() <= request,
{
    let q = kernel / request;
    let cv = spec_divisor_for_ratio(q).spec_value();
    lemma_fundamental_div_mod(kernel, request);
    lemma_mod_bound(kernel, request);
    if q < cv {
        assert(request * (q + 1) == request * q + request) by (nonlinear_arith);
        assert(kernel < request * (q + 1));
        lemma_mul_inequality(q + 1, cv, request);
        assert((q + 1) * request == request * (q + 1)) by (nonlinear_arith);
        assert(cv * request == request * cv) by (nonlinear_arith);
    } else {
        assert(q * request == request * q) by (nonlinear_arith);
    }
    assert(kernel <= request * cv);
    lemma_div_is_ordered(kernel, cv * request, cv);
    lemma_div_multiples_vanish(request, cv);
    assert(cv * request == request * cv) by (nonlinear_arith);
}

/// The exact integer number of bus-clock cycles covered by a delay of
/// `delay_ns` nanoseconds at `rate` Hz, rounded down.
pub open spec fn spec_raw_cs_cycles(delay_ns: u32, rate: u32) -> int {
    (delay_ns as int * rate as int) / 1_000_000_000
}

/// The chip-select delay cycle count programmed into the four-bit idle-cycles
/// field: the truncated cycle count, plus one cycle of margin for any nonzero
/// delay, clamped to 15.
pub open spec fn spec_cs_delay_cycles(delay_ns: u32, rate: u32) -> int {
    if delay_ns == 0 {
        0
    } else if spec_raw_cs_cycles(delay_ns, rate) + 1 >= 15 {
        15
    } else {
        spec_raw_cs_cycles(delay_ns, rate) + 1
    }
}

/// Computes the chip-select delay cycle count for a delay of `delay_ns`
/// nanoseconds at a bus rate of `rate` Hz.
///
/// The one extra cycle added to any nonzero delay guarantees the programmed
/// idle time is never shorter than requested, even after truncation; the
/// clamp keeps the count inside the four-bit hardware field.
pub fn cs_delay_cycles(delay_ns: u32, rate: u32) -> (r: u8)
    ensures
        r as int == spec_cs_delay_cycles(delay_ns, rate),
        r <= 15,
        delay_ns == 0 ==> r == 0,
        delay_ns > 0 && spec_raw_cs_cycles(delay_ns, rate) == 0 ==> r == 1,
{
    if delay_ns == 0 {
        return 0;
    }
    proof {
        assert(delay_ns as int * rate as int <= 0xffff_ffffu32 as int * 0xffff_ffffu32 as int)
            by (nonlinear_arith)
            requires
                delay_ns <= 0xffff_ffffu32,
                rate <= 0xffff_ffffu32,
        ;
    }
    let raw: u64 = ((delay_ns as u64) * (rate as u64)) / 1_000_000_000;
    if raw >= 15 {
        15
    } else {
        (raw + 1) as u8
    }
}

} // verus!
