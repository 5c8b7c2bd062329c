//! The attracting bodies and their gravitational parameters.

use vstd::prelude::*;
use vstd::arithmetic::power2::{lemma2_to64, lemma2_to64_rest, lemma_pow2_adds, pow2};
use crate::error::Error;
use crate::scalar::{magnitude_units, Scalar, FRACTION_SPAN};
use crate::text::same_text;

verus! {

/// The pattern of Earth's gravitational parameter, `398600441800000.0`.
pub const EARTH_MU_BITS: u64 = 0x42f6_a866_5bda_5400;

/// Earth's gravitational parameter in cubic metres per second squared.
pub open spec fn earth_mu() -> int {
    398_600_441_800_000
}

/// What is known of an attracting body.
#[derive(Clone, Copy, Debug)]
pub struct Body {
    /// The gravitational parameter, in cubic metres per second squared.
    pub mu: Scalar,
}

/// The body at the focus of the orbit.
#[allow(clippy::upper_case_acronyms)]
#[derive(Clone, Copy, Debug, PartialEq, Eq, Structural)]
pub enum CentralBody {
    EARTH,
}

impl CentralBody {
    /// The name of the body.
    pub open spec fn name(self) -> Seq<char> {
        match self {
            CentralBody::EARTH => "EARTH"@,
        }
    }

    /// The body that a text names, if any.
    pub open spec fn named(text: Seq<char>) -> Option<CentralBody> {
        if text == "EARTH"@ {
            Some(CentralBody::EARTH)
        } else {
            None
        }
    }

    /// What the table holds for the body.
    pub open spec fn body(self) -> Body {
        match self {
            CentralBody::EARTH => Body { mu: Scalar { bits: EARTH_MU_BITS } },
        }
    }

    /// The name of the body, as text.
    pub fn to_string(&self) -> (r: String)
        ensures
            r@ == self.name(),
    {
        match self {
            CentralBody::EARTH => "EARTH".to_owned(),
        }
    }

    /// Reads the name of a body.
    pub fn from_str(input: &str) -> (r: Result<CentralBody, Error>)
        ensures
            r == match CentralBody::named(input@) {
                Some(body) => Ok::<CentralBody, Error>(body),
                None => Err(Error::ParseError),
            },
    {
        if same_text(input, "EARTH") {
            Ok(CentralBody::EARTH)
        } else {
            Err(Error::ParseError)
        }
    }
}

/// The pattern tabulated for Earth denotes its gravitational parameter.
pub proof fn lemma_earth_mu()
    ensures
        CentralBody::EARTH.body().mu.is_whole(earth_mu()),
        !CentralBody::EARTH.body().mu.sign_negative(),
{
    let s = FRACTION_SPAN as int;
    let m = EARTH_MU_BITS as int;
    assert(m / s == 1071);
    assert(m % s == 0x6_a866_5bda_5400);
    assert(s + m % s == earth_mu() * 0x10);
    lemma2_to64_rest();
    lemma2_to64();
    lemma_pow2_adds(4, 1070);
    assert(magnitude_units(m) == (earth_mu() * 0x10) * pow2(1070));
    assert((earth_mu() * 0x10) * pow2(1070) == earth_mu() * (0x10 * pow2(1070))) by (nonlinear_arith);
}

/// Every body reads back from its own name, and from no other text.
pub proof fn lemma_central_body_round_trip(body: CentralBody, text: Seq<char>)
    ensures
        CentralBody::named(body.name()) == Some(body),
        CentralBody::named(text) == Some(body) <==> text == body.name(),
{
}

/// Looks a body up in the table.
pub fn get_body(body: &CentralBody) -> (r: Body)
    ensures
        r == body.body(),
        r.mu.is_whole(earth_mu()),
        r.mu.finite() && r.mu.units() > 0,
{
    proof {
        lemma_earth_mu();
        vstd::arithmetic::power2::lemma_pow2_pos(1074);
        assert(earth_mu() * pow2(1074) > 0) by (nonlinear_arith)
            requires
                pow2(1074) > 0,
        ;
    }
    match body {
        CentralBody::EARTH => Body { mu: Scalar::from_bits(EARTH_MU_BITS) },
    }
}

/// Looks a body up by its name.
pub fn lookup(name: &str) -> (r: Result<Body, Error>)
    ensures
        r == match CentralBody::named(name@) {
            Some(body) => Ok::<Body, Error>(body.body()),
            None => Err(Error::UnknownBody),
        },
{
    match CentralBody::from_str(name) {
        Ok(body) => Ok(get_body(&body)),
        Err(_) => Err(Error::UnknownBody),
    }
}

} // verus!
