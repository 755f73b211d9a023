use vstd::prelude::*;

verus! {

/// How many bytes of a reply are read.
pub const REPLY_BUFFER_LEN: usize = 64;

/// The server-query "init1" packet that asks a TeamSpeak server to answer.
pub open spec fn init_packet_bytes() -> Seq<u8> {
    seq![
        0x54u8, 0x53, 0x33, 0x49, 0x4e, 0x49, 0x54, 0x31, 0x00, 0x65, 0x00, 0x00,
        0x88, 0x0e, 0xf9, 0x67, 0xa5, 0x00, 0x61, 0x3f, 0x9e, 0x69, 0x66, 0x78,
        0x8d, 0x48, 0x00, 0x00, 0x00, 0x00, 0x00, 0x00, 0x00, 0x00,
    ]
}

/// Whether a probe's wait for a reply shows a live server: a datagram that
/// holds at least one byte arrived (`None`: nothing arrived in time, or the
/// receive failed).
pub open spec fn reply_alive(received: Option<usize>) -> bool {
    match received {
        Some(n) => n != 0,
        None => false,
    }
}

/// A TeamSpeak voice server at `host:port`, probed over UDP.
pub struct TeamSpeak {
    remote_address: String,
}

impl View for TeamSpeak {
    type V = Seq<char>;

    closed spec fn view(&self) -> Seq<char> {
        self.remote_address@
    }
}

impl TeamSpeak {
    /// A probe for the given `host:port`.
    pub fn new(remote_address: &str) -> (r: Self)
        ensures
            r@ == remote_address@,
    {
        TeamSpeak { remote_address: remote_address.to_owned() }
    }

    /// The `host:port` that the packet is sent to.
    pub fn remote_address(&self) -> (r: &str)
        ensures
            r@ == self@,
    {
        self.remote_address.as_str()
    }

    /// The 34 bytes sent to the server.
    pub fn init_packet() -> (r: Vec<u8>)
        ensures
            r@ == init_packet_bytes(),
            r@.len() == 34,
    {
        let r = vec![
            0x54u8, 0x53, 0x33, 0x49, 0x4e, 0x49, 0x54, 0x31, 0x00, 0x65, 0x00, 0x00,
            0x88, 0x0e, 0xf9, 0x67, 0xa5, 0x00, 0x61, 0x3f, 0x9e, 0x69, 0x66, 0x78,
            0x8d, 0x48, 0x00, 0x00, 0x00, 0x00, 0x00, 0x00, 0x00, 0x00,
        ];
        assert(r@ =~= init_packet_bytes());
        r
    }

    /// The verdict once the wait for a reply has ended: alive iff a non-empty
    /// datagram came back. Its content is not looked at.
    pub fn reply_verdict(received: Option<usize>) -> (r: bool)
        ensures
            r == reply_alive(received),
    {
        match received {
            Some(n) => n != 0,
            None => false,
        }
    }
}

} // verus!
