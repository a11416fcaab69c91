use vstd::prelude::*;

use crate::commands::lemma_channel_seq_idempotent;
use crate::commands::make_channel;
use crate::commands::privmsg_line;
use crate::encoder::Encodable;

verus! {

/// The wire form of [`Unvip`]: `PRIVMSG <channel> :/unvip <username>\r\n`.
pub open spec fn unvip_line(channel: Seq<char>, username: Seq<char>) -> Seq<char> {
    privmsg_line(channel, "/unvip "@ + username)
}

/// Revoke VIP status from a user.
#[non_exhaustive]
#[derive(Debug, Clone, PartialEq, Ord, PartialOrd, Eq, Hash)]
pub struct Unvip {
    pub(crate) channel: String,
    pub(crate) username: String,
}

/// Revoke VIP status from a user.
pub fn unvip(channel: &str, username: &str) -> (cmd: Unvip)
    ensures
        cmd.encoded() == unvip_line(channel@, username@),
{
    let chan = make_channel(channel);
    proof {
        lemma_channel_seq_idempotent(channel@);
    }
    Unvip { channel: chan, username: username.to_owned() }
}

impl Encodable for Unvip {
    closed spec fn encoded(&self) -> Seq<char> {
        unvip_line(self.channel@, self.username@)
    }

    fn encode(&self, buf: &mut String) {
        let target = make_channel(self.channel.as_str());
        buf.append("PRIVMSG ");
        buf.append(target.as_str());
        buf.append(" :");
        buf.append("/unvip ");
        buf.append(self.username.as_str());
        buf.append("\r\n");
        proof {
            assert(buf@ =~= old(buf)@ + self.encoded());
        }
    }
}

} // verus!
