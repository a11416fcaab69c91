use vstd::prelude::*;

use crate::commands::make_channel;
use crate::commands::privmsg_line;
use crate::encoder::Encodable;

verus! {

/// The wire form of [`Raid`]: `PRIVMSG <source> :/raid <target>\r\n`.
/// The source channel is normalized; the target is passed through as
/// given.
pub open spec fn raid_line(source: Seq<char>, target: Seq<char>) -> Seq<char> {
    privmsg_line(source, "/raid "@ + target)
}

/// Raid another channel.
#[non_exhaustive]
#[derive(Debug, Clone, PartialEq, Ord, PartialOrd, Eq, Hash)]
pub struct Raid {
    pub(crate) source: String,
    pub(crate) target: String,
}

/// Raid another channel.
pub fn raid(source: &str, target: &str) -> (cmd: Raid)
    ensures
        cmd.encoded() == raid_line(source@, target@),
{
    Raid { source: source.to_owned(), target: target.to_owned() }
}

impl Encodable for Raid {
    closed spec fn encoded(&self) -> Seq<char> {
        raid_line(self.source@, self.target@)
    }

    fn encode(&self, buf: &mut String) {
        let chan = make_channel(self.source.as_str());
        buf.append("PRIVMSG ");
        buf.append(chan.as_str());
        buf.append(" :");
        buf.append("/raid ");
        buf.append(self.target.as_str());
        buf.append("\r\n");
        proof {
            assert(buf@ =~= old(buf)@ + self.encoded());
        }
    }
}

} // verus!
