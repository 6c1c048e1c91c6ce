//! The fetch boundary's decision logic.
//!
//! The network request itself is a one-shot, unverified edge outside this
//! crate; everything it decides — which relative path each endpoint and
//! format pair uses, which format a deployment offers, and what each
//! response status means — is stated and checked here.

use vstd::prelude::*;
use crate::error::Error;

verus! {

/// The wire encoding a document is requested and parsed in.
#[derive(Clone, Copy, Debug, PartialEq, Eq, Structural)]
pub enum Format {
    XML,
    JSON,
}

/// Which endpoint flavors a deployment offers.  Whether the flat-format
/// endpoints exist is a deployment choice, configured at run time.
#[derive(Clone, Copy, Debug, PartialEq, Eq, Structural)]
pub enum FormatSupport {
    XmlOnly,
    XmlAndJson,
}

/// Whether a deployment configured with `support` serves `format`.
pub fn format_available(support: FormatSupport, format: Format) -> (r: bool)
    ensures
        r == (format is XML || support is XmlAndJson),
{
    match format {
        Format::XML => true,
        Format::JSON => match support {
            FormatSupport::XmlAndJson => true,
            FormatSupport::XmlOnly => false,
        },
    }
}

/// The relative path of the supported-versions endpoint for a format.
pub fn versions_path(format: Format) -> (r: &'static str)
    ensures
        format is XML ==> r@ == "/api/versions"@,
        format is JSON ==> r@ == "/api/versions.json"@,
{
    match format {
        Format::XML => "/api/versions",
        Format::JSON => "/api/versions.json",
    }
}

/// The relative path of the capabilities endpoint for a format.
pub fn capabilities_path(format: Format) -> (r: &'static str)
    ensures
        format is XML ==> r@ == "/api/capabilities"@,
        format is JSON ==> r@ == "/api/capabilities.json"@,
{
    match format {
        Format::XML => "/api/capabilities",
        Format::JSON => "/api/capabilities.json",
    }
}

/// What a response status means before any decode is attempted: only a
/// success status lets the body be decoded; every other status — the
/// not-found case included — is an explicit error carrying that status, and
/// no partial document is ever produced.
pub open spec fn spec_check_status(status: u16) -> Result<(), Error> {
    if status == 200 {
        Ok(())
    } else {
        Err(Error::HttpStatus(status))
    }
}

/// Classify a response status.
pub fn check_status(status: u16) -> (r: Result<(), Error>)
    ensures
        r == spec_check_status(status),
{
    if status == 200 {
        Ok(())
    } else {
        Err(Error::HttpStatus(status))
    }
}

} // verus!
