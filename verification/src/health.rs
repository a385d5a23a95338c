//! Process-wide health reporting: the health state is persisted as the sole
//! content of a well-known file, written at the boundaries of the main run
//! loop and read back by the health-check invocation.

use vstd::prelude::*;
use vstd::string::StringExecFns;

use crate::text::spec_trim;
use crate::text::str_eq;
use crate::text::trim_ascii;

verus! {

/// The status of the health check.
#[derive(Clone, Copy, Debug, PartialEq, Eq, Structural)]
pub enum Status {
    Starting,
    Healthy,
    Unhealthy,
}

impl Status {
    /// The exact health-file text standing for this status.
    pub open spec fn spec_text(self) -> Seq<char> {
        match self {
            Status::Starting => "STARTING"@,
            Status::Healthy => "HEALTHY"@,
            Status::Unhealthy => "UNHEALTHY"@,
        }
    }

    /// The status a health-file text stands for; unknown text counts as
    /// unhealthy.
    pub open spec fn spec_of_text(s: Seq<char>) -> Status {
        if s == "STARTING"@ {
            Status::Starting
        } else if s == "HEALTHY"@ {
            Status::Healthy
        } else {
            Status::Unhealthy
        }
    }

    /// Render this status as the text to record in the health file.
    pub fn text(&self) -> (r: String)
        ensures
            r@ == self.spec_text(),
    {
        match self {
            Status::Starting => String::from_str("STARTING"),
            Status::Healthy => String::from_str("HEALTHY"),
            Status::Unhealthy => String::from_str("UNHEALTHY"),
        }
    }

    /// Parse a health-file token back into a status.
    pub fn from_text(s: &str) -> (r: Status)
        ensures
            r == Status::spec_of_text(s@),
    {
        if str_eq(s, "STARTING") {
            Status::Starting
        } else if str_eq(s, "HEALTHY") {
            Status::Healthy
        } else {
            Status::Unhealthy
        }
    }

    /// The status the health file's content stands for: an unreadable file
    /// counts as unhealthy, and surrounding whitespace is ignored.
    pub fn from_file_content(content: &Option<String>) -> (r: Status)
        ensures
            r == match content {
                Some(c) => Status::spec_of_text(spec_trim(c@)),
                None => Status::Unhealthy,
            },
    {
        match content {
            None => Status::Unhealthy,
            Some(c) => {
                let trimmed = trim_ascii(c.as_str());
                Status::from_text(trimmed.as_str())
            },
        }
    }

    /// The exit code of the health-check invocation for this status:
    /// zero only when healthy.
    pub fn exit_code(&self) -> (r: i32)
        ensures
            r == if self is Healthy {
                0int
            } else {
                1int
            },
    {
        match self {
            Status::Healthy => 0,
            _ => 1,
        }
    }
}

/// The health-file content recording that the application is healthy:
/// written once all groups are launched.
pub fn healthy() -> (r: String)
    ensures
        r@ == Status::Healthy.spec_text(),
{
    Status::Healthy.text()
}

/// The health-file content recording that the application is unhealthy:
/// written on any fatal control-plane or configuration error.
pub fn unhealthy() -> (r: String)
    ensures
        r@ == Status::Unhealthy.spec_text(),
{
    Status::Unhealthy.text()
}

} // verus!
