use vstd::prelude::*;

verus! {

/// The connection state that the protocol engine reports.
#[derive(Clone, Copy, Debug, PartialEq, Eq, Structural)]
pub enum ConnState {
    Connecting,
    Connected,
    Closing,
    Closed,
}

/// An event queued by the transport engine, reduced to what the probes read.
#[derive(Clone, Copy, Debug, PartialEq, Eq, Structural)]
pub enum TransportEvent {
    /// Data (or the end of the stream) can be read from the stream.
    RecvStreamReadable { stream_id: u64 },
    /// The stream can take more data.
    SendStreamWritable { stream_id: u64 },
    /// Any other event about a stream (a stream the peer opened, a reset, a
    /// completed send, ...).
    OtherStream { stream_id: u64 },
    /// Any other event; it names no stream.
    Other,
}

/// An event queued by the HTTP/3 overlay engine, reduced to what the probes
/// read.
#[derive(Clone, Copy, Debug, PartialEq, Eq, Structural)]
pub enum OverlayEvent {
    /// The response headers of the stream can be read.
    HeaderReady { stream_id: u64 },
    /// Response body data of the stream can be read.
    DataReadable { stream_id: u64 },
    /// Any other event about a stream (a reset, a new stream, ...).
    OtherStream { stream_id: u64 },
    /// Any other event; it names no stream.
    Other,
}

impl ConnState {
    /// The state's name, as reported when a handshake ends in another state
    /// than `Connected`.
    pub fn name(&self) -> (r: String)
        ensures
            r@ == conn_state_name(*self),
    {
        match self {
            ConnState::Connecting => "Connecting".to_owned(),
            ConnState::Connected => "Connected".to_owned(),
            ConnState::Closing => "Closing".to_owned(),
            ConnState::Closed => "Closed".to_owned(),
        }
    }
}

pub open spec fn conn_state_name(s: ConnState) -> Seq<char> {
    match s {
        ConnState::Connecting => "Connecting"@,
        ConnState::Connected => "Connected"@,
        ConnState::Closing => "Closing"@,
        ConnState::Closed => "Closed"@,
    }
}

} // verus!
