//! The search for the debug endpoint in the log of the browser.

use vstd::prelude::*;
use vstd::string::*;
use crate::browser::executable::string_view;
use crate::error::Error;

verus! {

/// What the regular expression `pattern` captures in its group `group` at
/// its first match in `text`: `None` where `pattern` is not a regular
/// expression, where it matches nowhere in `text`, or where the group takes
/// no part in the match.
pub uninterp spec fn regex_capture(pattern: Seq<char>, text: Seq<char>, group: usize) -> Option<
    Seq<char>,
>;

/// Compiles `pattern` with `regex::Regex::new`, searches `text` with
/// `Regex::captures` and hands out what `Captures::get` gives for `group`.
/// Trusted: the result is taken to depend on the three arguments alone, and
/// is named [`regex_capture`]; nothing else is claimed of it.
#[verifier::external_body]
fn capture_group(pattern: &str, text: &str, group: usize) -> (captured: Option<String>)
    ensures
        string_view(captured) == regex_capture(pattern@, text@, group),
{
    regex::Regex::new(pattern).ok()?.captures(text)?.get(group).map(|m| m.as_str().to_owned())
}

/// The pattern of the log line that announces the debug endpoint; its first
/// group is the endpoint's address.
pub const ENDPOINT_PATTERN: &'static str = "listening on (.*/devtools/browser/.*)\\s*$";

/// The address of the debug endpoint that the log line `line` announces.
pub open spec fn endpoint_in(line: Seq<char>) -> Option<Seq<char>> {
    regex_capture(ENDPOINT_PATTERN@, line, 1)
}

/// Reads the address of the debug endpoint from one line of the browser's
/// log.
pub fn endpoint_of_line(line: &str) -> (address: Option<String>)
    ensures
        string_view(address) == endpoint_in(line@),
{
    capture_group(ENDPOINT_PATTERN, line, 1)
}

/// The search for the debug endpoint in the browser's log. The log is read
/// to its end even after the endpoint is found, so that the browser never
/// blocks on a full pipe.
#[derive(Debug, Clone, Copy, PartialEq, Eq, Structural)]
pub struct EndpointScan {
    /// Whether the endpoint has been found.
    pub found: bool,
}

impl EndpointScan {
    /// The scan before the first line.
    pub fn new() -> (scan: EndpointScan)
        ensures
            !scan.found,
    {
        EndpointScan { found: false }
    }

    /// Takes what the next line announces. The first address that comes is
    /// handed out; whatever later lines announce is dropped.
    pub fn feed(&mut self, announced: Option<String>) -> (address: Option<String>)
        ensures
            final(self).found == (old(self).found || announced is Some),
            address == (if old(self).found {
                None
            } else {
                announced
            }),
    {
        if self.found {
            None
        } else {
            if announced.is_some() {
                self.found = true;
            }
            announced
        }
    }

    /// Takes the next line of the log.
    pub fn read_line(&mut self, line: &str) -> (address: Option<String>)
        ensures
            final(self).found == (old(self).found || endpoint_in(line@) is Some),
            string_view(address) == (if old(self).found {
                None
            } else {
                endpoint_in(line@)
            }),
    {
        if self.found {
            None
        } else {
            self.feed(endpoint_of_line(line))
        }
    }

    /// Takes the end of the log: an error unless the endpoint was found.
    pub fn finish(&self) -> (outcome: Result<(), Error>)
        ensures
            outcome is Ok == self.found,
            outcome matches Err(e) ==> e == Error::DebugUrlNotFound,
    {
        if self.found {
            Ok(())
        } else {
            Err(Error::DebugUrlNotFound)
        }
    }
}

} // verus!
