//! The job record: which listener captured it, where it came from, and the
//! captured bytes.

use vstd::prelude::*;

verus! {

/// The wire protocols the decoy answers on.
#[derive(Debug, Clone, Copy, PartialEq, Eq, Structural)]
pub enum Protocol {
    Ipp,
    JetDirect,
}

/// Display name of a protocol.
pub open spec fn protocol_name(p: Protocol) -> Seq<char> {
    match p {
        Protocol::Ipp => "IPP"@,
        Protocol::JetDirect => "JetDirect"@,
    }
}

/// File name under which a job's raw payload is forwarded.
pub open spec fn attachment_name_of(p: Protocol) -> Seq<char> {
    match p {
        Protocol::Ipp => "input.job"@,
        Protocol::JetDirect => "input.ps"@,
    }
}

/// Source recorded for a document that declares no format: the IPP default
/// document format.
pub const UNDECLARED_FORMAT: &'static str = "application/octet-stream";

impl Protocol {
    /// Display name of the protocol.
    pub fn name(&self) -> (r: &'static str)
        ensures
            r@ == protocol_name(*self),
    {
        match self {
            Protocol::Ipp => "IPP",
            Protocol::JetDirect => "JetDirect",
        }
    }

    /// File name under which a job of this protocol is forwarded raw.
    pub fn attachment_name(&self) -> (r: &'static str)
        ensures
            r@ == attachment_name_of(*self),
    {
        match self {
            Protocol::Ipp => "input.job",
            Protocol::JetDirect => "input.ps",
        }
    }
}

/// A captured print job.
#[derive(Debug, Clone, PartialEq, Eq)]
pub struct Job {
    pub protocol: Protocol,
    /// Where the job came from (a peer address or a declared document
    /// format); shown to operators, never used for routing.
    pub source: String,
    pub raw_data: Vec<u8>,
}

impl Job {
    /// A job holds at least one byte.
    pub open spec fn wf(&self) -> bool {
        self.raw_data@.len() > 0
    }

    /// The job for `raw_data` captured over `protocol` from `source`; `None`
    /// when there are no bytes.
    pub fn new(protocol: Protocol, source: String, raw_data: Vec<u8>) -> (r: Option<Job>)
        ensures
            raw_data@.len() == 0 <==> r.is_none(),
            r matches Some(j) ==> j.wf() && j.protocol == protocol && j.source@ == source@
                && j.raw_data@ == raw_data@,
    {
        if raw_data.len() == 0 {
            None
        } else {
            Some(Job { protocol, source, raw_data })
        }
    }

    /// The job for a document received over IPP: its source is the declared
    /// format, or `UNDECLARED_FORMAT` where none was declared; `None` when the
    /// document is empty.
    pub fn from_document(format: Option<String>, payload: Vec<u8>) -> (r: Option<Job>)
        ensures
            payload@.len() == 0 <==> r.is_none(),
            r matches Some(j) ==> {
                &&& j.wf()
                &&& j.protocol == Protocol::Ipp
                &&& j.raw_data@ == payload@
                &&& j.source@ == match format {
                    Some(f) => f@,
                    None => UNDECLARED_FORMAT@,
                }
            },
    {
        let source = match format {
            Some(f) => f,
            None => UNDECLARED_FORMAT.to_string(),
        };
        Job::new(Protocol::Ipp, source, payload)
    }

    /// Number of captured bytes.
    pub fn size(&self) -> (r: usize)
        ensures
            r == self.raw_data@.len(),
    {
        self.raw_data.len()
    }
}

} // verus!
