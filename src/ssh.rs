use vstd::prelude::*;

verus! {

/// How many bytes of the server's reply are read.
pub const REPLY_BUFFER_LEN: usize = 64;

/// The version-exchange banner sent to the server: `SSH-2.0-OpenSSH_8.7\r\n`.
pub open spec fn banner_bytes() -> Seq<u8> {
    seq![
        0x53u8, 0x53, 0x48, 0x2d, 0x32, 0x2e, 0x30, 0x2d, 0x4f, 0x70, 0x65, 0x6e,
        0x53, 0x53, 0x48, 0x5f, 0x38, 0x2e, 0x37, 0x0d, 0x0a,
    ]
}

/// Whether `reply` holds the bytes of `"SSH"` at position `i`.
pub open spec fn ssh_at(reply: Seq<u8>, i: int) -> bool {
    0 <= i && i + 3 <= reply.len() && reply[i] == 0x53u8 && reply[i + 1] == 0x53u8
        && reply[i + 2] == 0x48u8
}

/// Whether a reply names the SSH protocol: it holds `"SSH"` somewhere. These are
/// ASCII bytes, so this is also whether the reply, read as text with invalid
/// sequences replaced, contains `"SSH"`.
pub open spec fn reply_names_ssh(reply: Seq<u8>) -> bool {
    exists|i: int| #[trigger] ssh_at(reply, i)
}

/// The stages of an SSH probe, run in this order, each with its own deadline.
#[derive(Clone, Copy, Debug, PartialEq, Eq, Structural)]
pub enum SshStage {
    /// Open a TCP connection.
    Connect,
    /// Write the banner.
    SendBanner,
    /// Read the server's reply.
    ReadReply,
}

/// How a stage ended.
#[derive(Clone, Debug)]
pub enum StageOutcome {
    /// The stage finished; for `ReadReply`, with the bytes that were read
    /// (empty for the other stages).
    Completed(Vec<u8>),
    /// The stage failed with an I/O error.
    Failed,
    /// The stage's deadline passed first.
    TimedOut,
}

/// What the probe does next.
#[derive(Clone, Copy, Debug, PartialEq, Eq, Structural)]
pub enum SshAction {
    /// Run this stage.
    Run(SshStage),
    /// Stop, with this verdict.
    Finish(bool),
}

/// The action that follows `stage` when it ended with `outcome`.
pub open spec fn spec_next_action(stage: SshStage, outcome: StageOutcome) -> SshAction {
    match outcome {
        StageOutcome::Completed(bytes) => match stage {
            SshStage::Connect => SshAction::Run(SshStage::SendBanner),
            SshStage::SendBanner => SshAction::Run(SshStage::ReadReply),
            SshStage::ReadReply => SshAction::Finish(reply_names_ssh(bytes@)),
        },
        _ => SshAction::Finish(false),
    }
}

/// An SSH server at `host:port`, probed with a version exchange over TCP.
pub struct SSH {
    remote_address: String,
}

impl View for SSH {
    type V = Seq<char>;

    closed spec fn view(&self) -> Seq<char> {
        self.remote_address@
    }
}

impl SSH {
    /// A probe for the given `host:port`.
    pub fn new(remote_address: &str) -> (r: Self)
        ensures
            r@ == remote_address@,
    {
        SSH { remote_address: remote_address.to_owned() }
    }

    /// The `host:port` that is connected to.
    pub fn remote_address(&self) -> (r: &str)
        ensures
            r@ == self@,
    {
        self.remote_address.as_str()
    }

    /// The 21 bytes of the banner.
    pub fn banner() -> (r: Vec<u8>)
        ensures
            r@ == banner_bytes(),
            r@.len() == 21,
    {
        let r = vec![
            0x53u8, 0x53, 0x48, 0x2d, 0x32, 0x2e, 0x30, 0x2d, 0x4f, 0x70, 0x65, 0x6e,
            0x53, 0x53, 0x48, 0x5f, 0x38, 0x2e, 0x37, 0x0d, 0x0a,
        ];
        assert(r@ =~= banner_bytes());
        r
    }

    /// Whether the server's reply holds `"SSH"`.
    pub fn reply_is_ssh(reply: &[u8]) -> (r: bool)
        ensures
            r == reply_names_ssh(reply@),
    {
        let n = reply.len();
        let mut i: usize = 0;
        while n >= 3 && i <= n - 3
            invariant
                n == reply@.len(),
                i <= n,
                forall|j: int| 0 <= j < i ==> !ssh_at(reply@, j),
            decreases n - i,
        {
            if reply[i] == 0x53u8 && reply[i + 1] == 0x53u8 && reply[i + 2] == 0x48u8 {
                assert(ssh_at(reply@, i as int));
                return true;
            }
            i = i + 1;
        }
        assert forall|j: int| !ssh_at(reply@, j) by {
            if 0 <= j < i {
            }
        }
        false
    }

    /// The first stage of every probe.
    pub fn first_stage() -> (r: SshStage)
        ensures
            r == SshStage::Connect,
    {
        SshStage::Connect
    }

    /// What to do after `stage` ended with `outcome`: go on to the next stage
    /// after a stage that completed, stop with `false` after any failure or
    /// timeout, and after the reply was read stop with whether it holds
    /// `"SSH"`.
    pub fn next_action(stage: SshStage, outcome: &StageOutcome) -> (r: SshAction)
        ensures
            r == spec_next_action(stage, *outcome),
    {
        match outcome {
            StageOutcome::Completed(bytes) => match stage {
                SshStage::Connect => SshAction::Run(SshStage::SendBanner),
                SshStage::SendBanner => SshAction::Run(SshStage::ReadReply),
                SshStage::ReadReply => SshAction::Finish(SSH::reply_is_ssh(bytes.as_slice())),
            },
            _ => SshAction::Finish(false),
        }
    }
}

} // verus!
