use vstd::prelude::*;

use crate::commands::channel_seq;
use crate::commands::lemma_channel_seq_idempotent;
use crate::commands::make_channel;
use crate::encoder::Encodable;

verus! {

/// The wire form of [`Join`]: `JOIN <channel>\r\n` with the channel
/// normalized.
pub open spec fn join_line(channel: Seq<char>) -> Seq<char> {
    "JOIN "@ + channel_seq(channel) + "\r\n"@
}

/// A `JOIN` line carries exactly one leading `#` before the channel
/// body: for a body with no `#` of its own, the line holds `#` right
/// after `JOIN `, then the body unchanged, and the character after the
/// `#` is not another `#`.
pub proof fn lemma_join_line_single_hash(channel: Seq<char>)
    requires
        channel.len() == 0 || channel[0] != '#',
    ensures
        join_line(channel).len() == 8 + channel.len(),
        join_line(channel)[5] == '#',
        join_line(channel).subrange(6, 6 + channel.len() as int) == channel,
        channel.len() > 0 ==> join_line(channel)[6] != '#',
{
    reveal_strlit("JOIN ");
    reveal_strlit("\r\n");
    crate::commands::lemma_channel_normalized(channel);
    assert(join_line(channel).subrange(6, 6 + channel.len() as int) =~= channel);
}

/// Join a channel.
#[non_exhaustive]
#[derive(Debug, Clone, PartialEq, Ord, PartialOrd, Eq, Hash)]
pub struct Join {
    pub(crate) channel: String,
}

/// Join a channel.
pub fn join(channel: &str) -> (cmd: Join)
    ensures
        cmd.encoded() == join_line(channel@),
{
    let chan = make_channel(channel);
    proof {
        lemma_channel_seq_idempotent(channel@);
    }
    Join { channel: chan }
}

impl Encodable for Join {
    closed spec fn encoded(&self) -> Seq<char> {
        join_line(self.channel@)
    }

    fn encode(&self, buf: &mut String) {
        let chan = make_channel(self.channel.as_str());
        buf.append("JOIN ");
        buf.append(chan.as_str());
        buf.append("\r\n");
        proof {
            assert(buf@ =~= old(buf)@ + self.encoded());
        }
    }
}

} // verus!
