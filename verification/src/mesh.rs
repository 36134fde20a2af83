//! The RadioHead mesh routing stack: what is asked of it, and what its answers
//! mean.

use vstd::prelude::*;

verus! {

/// RadioHead router error codes.
#[derive(Debug, Clone, Copy, PartialEq, Eq, Structural)]
pub enum MeshError {
    InvalidLength,
    NoRoute,
    Timeout,
    NoReply,
    UnableToDeliver,
}

/// The error that a router code stands for; none is success, and a code that
/// the router does not document is a failure to deliver.
pub open spec fn mesh_error(code: u8) -> Option<MeshError> {
    if code == 0 {
        None
    } else if code == 1 {
        Some(MeshError::InvalidLength)
    } else if code == 2 {
        Some(MeshError::NoRoute)
    } else if code == 3 {
        Some(MeshError::Timeout)
    } else if code == 4 {
        Some(MeshError::NoReply)
    } else {
        Some(MeshError::UnableToDeliver)
    }
}

impl MeshError {
    /// The error that a router code stands for, if it is one.
    pub fn from_code(code: u8) -> (r: Option<MeshError>)
        ensures
            r == mesh_error(code),
    {
        match code {
            0 => None,  // success
            1 => Some(MeshError::InvalidLength),
            2 => Some(MeshError::NoRoute),
            3 => Some(MeshError::Timeout),
            4 => Some(MeshError::NoReply),
            _ => Some(MeshError::UnableToDeliver),
        }
    }
}

/// A received mesh message.
#[derive(Debug)]
pub struct Message {
    pub len: u8,
    pub source: u8,
    pub dest: u8,
    pub id: u8,
    pub flags: u8,
}

/// What is asked of the router to send a message: the length is a byte.
pub struct SendRequest {
    pub len: u8,
    pub dest: u8,
    pub flags: u8,
}

/// Handle to the RadioHead mesh networking stack: puts requests together and
/// reads answers.
pub struct RhMesh {}

impl RhMesh {
    /// A handle.
    pub fn new() -> (r: RhMesh) {
        RhMesh {  }
    }

    /// Send a message to `dest` via the mesh network.
    ///
    /// The stack blocks until acknowledged by the next hop (not the final
    /// destination) and performs automatic route discovery if no route is
    /// known. See [`sent`](Self::sent) for its answer.
    pub fn send(&self, data: &[u8], dest: u8) -> (r: SendRequest)
        ensures
            r == (SendRequest { len: (data@.len() % 256) as u8, dest, flags: 0 }),
    {
        self.send_with_flags(data, dest, 0)
    }

    /// Send with application-level flags (lower 4 bits only).
    pub fn send_with_flags(&self, data: &[u8], dest: u8, flags: u8) -> (r: SendRequest)
        ensures
            r == (SendRequest { len: (data@.len() % 256) as u8, dest, flags }),
    {
        SendRequest { len: (data.len() % 256) as u8, dest, flags }
    }

    /// What the router's code says of a message sent.
    pub fn sent(&self, code: u8) -> (r: Result<(), MeshError>)
        ensures
            r is Ok == (code == 0),
            r matches Err(e) ==> mesh_error(code) == Some(e),
    {
        match MeshError::from_code(code) {
            None => Ok(()),
            Some(e) => Err(e),
        }
    }

    /// The room that the stack is told a receive buffer has.
    pub fn recv_room(&self, buf: &[u8]) -> (r: u8)
        ensures
            r == buf@.len() % 256,
    {
        (buf.len() % 256) as u8
    }

    /// The message that a receive gave, if it gave one: `header` is what the
    /// stack filled in, the payload is the first `len` bytes of the buffer.
    pub fn recv(&self, ok: bool, header: Message) -> (r: Option<Message>)
        ensures
            r == if ok {
                Some(header)
            } else {
                None
            },
    {
        if ok {
            Some(header)
        } else {
            None
        }
    }
}

} // verus!
