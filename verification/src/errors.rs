//! The error kinds of the server core and their SMPP status mapping.

use vstd::prelude::*;
use crate::pdu::{ESME_RINVPASWD, ESME_RSYSERR};

verus! {

/// What the logic seam may answer to a bind request.
#[derive(Debug)]
pub enum BindError {
    IncorrectPassword,
    InternalError,
}

impl BindError {
    /// The command_status a bind response carries for this error.
    pub open spec fn spec_command_status(&self) -> u32 {
        match self {
            BindError::IncorrectPassword => ESME_RINVPASWD,
            BindError::InternalError => ESME_RSYSERR,
        }
    }

    pub fn command_status(&self) -> (r: u32)
        ensures
            r == self.spec_command_status(),
    {
        match self {
            BindError::IncorrectPassword => ESME_RINVPASWD,
            BindError::InternalError => ESME_RSYSERR,
        }
    }
}

/// What the logic seam may answer to a submit_sm.
#[derive(Debug)]
pub enum SubmitSmError {
    InternalError,
}

impl SubmitSmError {
    /// The command_status a submit_sm response carries for this error.
    pub open spec fn spec_command_status(&self) -> u32 {
        match self {
            SubmitSmError::InternalError => ESME_RSYSERR,
        }
    }

    pub fn command_status(&self) -> (r: u32)
        ensures
            r == self.spec_command_status(),
    {
        match self {
            SubmitSmError::InternalError => ESME_RSYSERR,
        }
    }
}

/// What the codec reported about a frame it could not parse.
///
/// `command_id` and `sequence_number` are present when the codec got far
/// enough to read them; `status` is the SMPP command_status the error
/// maps to, as the codec assigns it.
#[derive(Debug)]
pub struct ParseErrorData {
    pub command_id: Option<u32>,
    pub sequence_number: Option<u32>,
    pub status: u32,
}

/// Why a connection is torn down.
#[derive(Debug)]
pub enum ProcessError {
    /// The peer sent bytes that do not parse as a PDU.
    ParseError { data: ParseErrorData },
    /// The peer sent a well-formed PDU of a kind the server does not serve.
    UnexpectedPduType { command_id: u32, sequence_number: u32 },
    /// The peer sent submit_sm before binding.
    ConnectionNotBoundAsTransmitter,
    /// Reading or writing the socket failed; raised by the I/O layer.
    IoError,
    /// A failure inside the server; raised by the I/O layer.
    InternalError,
}

} // verus!
