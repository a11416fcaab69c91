use vstd::prelude::*;

use crate::commands::make_channel;
use crate::commands::privmsg_line;
use crate::encoder::Encodable;

verus! {

/// The wire form of [`Unmod`]: `PRIVMSG <channel> :/unmod <username>\r\n`.
pub open spec fn unmod_line(channel: Seq<char>, username: Seq<char>) -> Seq<char> {
    privmsg_line(channel, "/unmod "@ + username)
}

/// Revoke moderator status from a user.
#[non_exhaustive]
#[derive(Debug, Clone, PartialEq, Ord, PartialOrd, Eq, Hash)]
pub struct Unmod {
    pub(crate) channel: String,
    pub(crate) username: String,
}

/// Revoke moderator status from a user.
pub fn unmod(channel: &str, username: &str) -> (cmd: Unmod)
    ensures
        cmd.encoded() == unmod_line(channel@, username@),
{
    Unmod { channel: channel.to_owned(), username: username.to_owned() }
}

impl Encodable for Unmod {
    closed spec fn encoded(&self) -> Seq<char> {
        unmod_line(self.channel@, self.username@)
    }

    fn encode(&self, buf: &mut String) {
        let target = make_channel(self.channel.as_str());
        buf.append("PRIVMSG ");
        buf.append(target.as_str());
        buf.append(" :");
        buf.append("/unmod ");
        buf.append(self.username.as_str());
        buf.append("\r\n");
        proof {
            assert(buf@ =~= old(buf)@ + self.encoded());
        }
    }
}

} // verus!
