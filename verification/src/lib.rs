//! Differential checking of accelerated UTF-8 validators against a reference decoder.
//!
//! One input is classified once by the reference decoder ([`oracle`]). Every validator
//! under test is run on the same bytes in both of its reporting modes, and each verdict
//! ([`verdict`]) is held against the oracle's by the comparator of its mode
//! ([`compare`]). The [`driver`] does this for one backend or for a list of them and
//! hands back the first disagreement together with the input. The validators that
//! the library runs by itself stand in [`candidate`].

pub mod candidate;
pub mod compare;
pub mod driver;
pub mod oracle;
pub mod verdict;
