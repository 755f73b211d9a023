use vstd::prelude::*;

verus! {

/// The lowest status code that counts as healthy.
pub const HEALTHY_STATUS_LOW: u16 = 200;

/// The first status code above the healthy range.
pub const HEALTHY_STATUS_END: u16 = 300;

/// An HTTP target, probed with one GET request to its URL.
pub struct HTTP {
    remote_address: String,
}

impl View for HTTP {
    type V = Seq<char>;

    closed spec fn view(&self) -> Seq<char> {
        self.remote_address@
    }
}

/// Whether a response status code reports a healthy service: a 2xx code.
pub open spec fn status_healthy(status: u16) -> bool {
    HEALTHY_STATUS_LOW <= status && status < HEALTHY_STATUS_END
}

impl HTTP {
    /// A probe for the given URL.
    pub fn new(remote_address: &str) -> (r: Self)
        ensures
            r@ == remote_address@,
    {
        HTTP { remote_address: remote_address.to_owned() }
    }

    /// The URL that is requested.
    pub fn remote_address(&self) -> (r: &str)
        ensures
            r@ == self@,
    {
        self.remote_address.as_str()
    }

    /// The verdict on a response that arrived: healthy iff its status code
    /// lies in [200, 300).
    pub fn status_is_healthy(status: u16) -> (r: bool)
        ensures
            r == status_healthy(status),
    {
        HEALTHY_STATUS_LOW <= status && status < HEALTHY_STATUS_END
    }
}

} // verus!
