//! Where receipts go: parsing the till's printer setting.
//!
//! Unset means no printer, which is an ordinary configuration. A malformed value is an error
//! rather than a fallback to none: whoever typed an address wants printing, and silently not
//! printing is a failure they would learn of from a customer.

use vstd::prelude::*;
use vstd::string::StringExecFns;
use crate::text::{contains_char, starts_with, strip_prefix, trim, trim_chars};

verus! {

#[derive(Debug, Clone, PartialEq, Eq)]
pub enum PrintError {
    NotConfigured,
    BadTarget { target: String, reason: String },
    Unreachable { address: String, reason: String },
    WriteFailed(String),
}

/// What a printing failure says to a cashier.
pub open spec fn print_message(error: PrintError) -> Seq<char> {
    match error {
        PrintError::NotConfigured => "no printer is configured"@,
        PrintError::BadTarget { target, reason } => target@ + " is not a printer address: "@ + reason@,
        PrintError::Unreachable { address, reason } => "could not reach the printer at "@ + address@ + ": "@ + reason@,
        PrintError::WriteFailed(reason) => "the printer accepted the connection but not the job: "@ + reason@,
    }
}

impl PrintError {
    /// The failure as a sentence.
    pub fn message(&self) -> (r: String)
        ensures
            r@ == print_message(*self),
    {
        match self {
            PrintError::NotConfigured => "no printer is configured".to_owned(),
            PrintError::BadTarget { target, reason } => {
                let mut text = target.clone();
                text.append(" is not a printer address: ");
                text.append(reason.as_str());
                text
            },
            PrintError::Unreachable { address, reason } => {
                let mut text = "could not reach the printer at ".to_owned();
                text.append(address.as_str());
                text.append(": ");
                text.append(reason.as_str());
                text
            },
            PrintError::WriteFailed(reason) => {
                let mut text = "the printer accepted the connection but not the job: ".to_owned();
                text.append(reason.as_str());
                text
            },
        }
    }
}

/// Where a till sends receipts.
#[derive(Debug, Clone, PartialEq, Eq)]
pub enum PrinterTarget {
    /// A network printer, `host:port`; the raw ESC/POS port 9100 unless another is given.
    Network(String),
    /// Append the raw bytes to the file at this path.
    File(String),
    /// No printer.
    NoPrinter,
}

/// The address a `tcp://` setting names: the port defaults to 9100.
pub open spec fn network_address(rest: Seq<char>) -> Seq<char> {
    if rest.contains(':') { rest } else { rest + ":9100"@ }
}

/// Whether `r` refuses `target` as a printer setting for `reason`.
pub open spec fn refuses(r: Result<PrinterTarget, PrintError>, target: Seq<char>, reason: Seq<char>) -> bool {
    r matches Err(PrintError::BadTarget { target: t, reason: why }) && t@ == target && why@ == reason
}

impl PrinterTarget {
    /// Parse the printer setting: `tcp://host[:port]`, `file://path`, or nothing.
    pub fn parse(value: Option<&str>) -> (r: Result<PrinterTarget, PrintError>)
        ensures
            (value is None || trim_chars(value->0@).len() == 0) ==> r == Ok::<PrinterTarget, PrintError>(PrinterTarget::NoPrinter),
            value matches Some(v) ==> {
                let raw = trim_chars(v@);
                raw.len() > 0 ==> {
                    if starts_with(raw, "tcp://"@) {
                        let rest = raw.skip(6);
                        if rest.len() == 0 {
                            refuses(r, raw, "no host"@)
                        } else {
                            r matches Ok(PrinterTarget::Network(address)) && address@ == network_address(rest)
                        }
                    } else if starts_with(raw, "file://"@) {
                        let rest = raw.skip(7);
                        if rest.len() == 0 {
                            refuses(r, raw, "no path"@)
                        } else {
                            r matches Ok(PrinterTarget::File(path)) && path@ == rest
                        }
                    } else {
                        refuses(r, raw, "expected tcp://host[:port] or file:///path"@)
                    }
                }
            },
    {
        proof {
            reveal_strlit("tcp://");
            reveal_strlit("file://");
        }
        let raw = match value {
            Some(v) => trim(v),
            None => return Ok(PrinterTarget::NoPrinter),
        };
        if raw.is_empty() {
            return Ok(PrinterTarget::NoPrinter);
        }
        if let Some(address) = strip_prefix(raw, "tcp://") {
            assert(address@ == raw@.skip(6));
            if address.is_empty() {
                return Err(PrintError::BadTarget { target: raw.to_owned(), reason: "no host".to_owned() });
            }
            let full = if contains_char(address, ':') {
                address.to_owned()
            } else {
                address.to_owned().concat(":9100")
            };
            return Ok(PrinterTarget::Network(full));
        }
        if let Some(path) = strip_prefix(raw, "file://") {
            assert(path@ == raw@.skip(7));
            if path.is_empty() {
                return Err(PrintError::BadTarget { target: raw.to_owned(), reason: "no path".to_owned() });
            }
            return Ok(PrinterTarget::File(path.to_owned()));
        }
        Err(PrintError::BadTarget {
            target: raw.to_owned(),
            reason: "expected tcp://host[:port] or file:///path".to_owned(),
        })
    }

    pub fn is_configured(&self) -> (r: bool)
        ensures
            r <==> !(self is NoPrinter),
    {
        match self {
            PrinterTarget::NoPrinter => false,
            _ => true,
        }
    }
}

} // verus!
