use vstd::prelude::*;

use crate::commands::lemma_channel_seq_idempotent;
use crate::commands::make_channel;
use crate::commands::privmsg_line;
use crate::encoder::Encodable;

verus! {

/// The wire form of [`GiveMod`]: `PRIVMSG <channel> :/mod <username>\r\n`.
pub open spec fn give_mod_line(channel: Seq<char>, username: Seq<char>) -> Seq<char> {
    privmsg_line(channel, "/mod "@ + username)
}

/// Grant moderator status to a user.
#[non_exhaustive]
#[derive(Debug, Clone, PartialEq, Ord, PartialOrd, Eq, Hash)]
pub struct GiveMod {
    pub(crate) channel: String,
    pub(crate) username: String,
}

/// Grant moderator status to a user.
pub fn give_mod(channel: &str, username: &str) -> (cmd: GiveMod)
    ensures
        cmd.encoded() == give_mod_line(channel@, username@),
{
    let chan = make_channel(channel);
    proof {
        lemma_channel_seq_idempotent(channel@);
    }
    GiveMod { channel: chan, username: username.to_owned() }
}

impl Encodable for GiveMod {
    closed spec fn encoded(&self) -> Seq<char> {
        give_mod_line(self.channel@, self.username@)
    }

    fn encode(&self, buf: &mut String) {
        let target = make_channel(self.channel.as_str());
        buf.append("PRIVMSG ");
        buf.append(target.as_str());
        buf.append(" :");
        buf.append("/mod ");
        buf.append(self.username.as_str());
        buf.append("\r\n");
        proof {
            assert(buf@ =~= old(buf)@ + self.encoded());
        }
    }
}

} // verus!
