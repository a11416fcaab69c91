//! Outbound chat commands.
//!
//! Each command is a plain value built by a constructor; encoding it
//! yields one IRC line. Twitch chat commands serialize as
//! `PRIVMSG <channel> :/<subcommand> [args]\r\n`; `JOIN` is encoded
//! directly. A channel name missing its leading `#` gains one, both in
//! the constructors that pre-normalize and again at encoding time, so a
//! command value always puts a `#`-prefixed channel on the wire.

use vstd::prelude::*;

mod give_mod;
mod join;
mod raid;
mod unmod;
mod unvip;

pub use give_mod::give_mod;
pub use give_mod::give_mod_line;
pub use give_mod::GiveMod;
pub use join::join;
pub use join::join_line;
pub use join::lemma_join_line_single_hash;
pub use join::Join;
pub use raid::raid;
pub use raid::raid_line;
pub use raid::Raid;
pub use unmod::unmod;
pub use unmod::unmod_line;
pub use unmod::Unmod;
pub use unvip::unvip;
pub use unvip::unvip_line;
pub use unvip::Unvip;

verus! {

/// A channel name as it goes on the wire: unchanged when it already
/// starts with `#`, prefixed with `#` otherwise.
pub open spec fn channel_seq(c: Seq<char>) -> Seq<char> {
    if c.len() > 0 && c[0] == '#' {
        c
    } else {
        seq!['#'] + c
    }
}

/// The wire form of a Twitch chat command: a `PRIVMSG` to the normalized
/// channel whose trailing argument is the slash-command text.
pub open spec fn privmsg_line(target: Seq<char>, rest: Seq<char>) -> Seq<char> {
    "PRIVMSG "@ + channel_seq(target) + " :"@ + rest + "\r\n"@
}

/// Normalize a channel name, giving it a leading `#` if it has none.
pub fn make_channel(channel: &str) -> (r: String)
    ensures
        r@ == channel_seq(channel@),
{
    if !channel.is_empty() && channel.get_char(0) == '#' {
        channel.to_owned()
    } else {
        let mut s = String::from_str("#");
        proof {
            reveal_strlit("#");
        }
        s.append(channel);
        proof {
            assert(s@ =~= seq!['#'] + channel@);
        }
        s
    }
}

/// Normalization is idempotent: a name that has been given its `#` is
/// left alone by a second pass.
pub proof fn lemma_channel_seq_idempotent(c: Seq<char>)
    ensures
        channel_seq(channel_seq(c)) == channel_seq(c),
{
    if !(c.len() > 0 && c[0] == '#') {
        assert((seq!['#'] + c)[0] == '#');
    }
}

/// A normalized channel name carries exactly one leading `#` before the
/// channel body: for a body that does not itself start with `#`, the
/// result is one `#` followed, unchanged, by the body.
pub proof fn lemma_channel_normalized(c: Seq<char>)
    requires
        c.len() == 0 || c[0] != '#',
    ensures
        channel_seq(c).len() == c.len() + 1,
        channel_seq(c)[0] == '#',
        channel_seq(c).subrange(1, channel_seq(c).len() as int) == c,
        c.len() > 0 ==> channel_seq(c)[1] != '#',
{
    assert(channel_seq(c).subrange(1, channel_seq(c).len() as int) =~= c);
}

/// Every `PRIVMSG` command line carries exactly one leading `#` before
/// the channel body: for a body with no `#` of its own, the line holds
/// `#` at the position right after `PRIVMSG `, then the body unchanged,
/// and the character after the `#` is not another `#`.
pub proof fn lemma_privmsg_line_single_hash(target: Seq<char>, rest: Seq<char>)
    requires
        target.len() == 0 || target[0] != '#',
    ensures
        privmsg_line(target, rest).len() == 13 + target.len() + rest.len(),
        privmsg_line(target, rest)[8] == '#',
        privmsg_line(target, rest).subrange(9, 9 + target.len() as int) == target,
        target.len() > 0 ==> privmsg_line(target, rest)[9] != '#',
{
    reveal_strlit("PRIVMSG ");
    reveal_strlit(" :");
    reveal_strlit("\r\n");
    lemma_channel_normalized(target);
    assert(privmsg_line(target, rest).subrange(9, 9 + target.len() as int) =~= target);
}

} // verus!
