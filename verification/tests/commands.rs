use twitchchat::commands::give_mod;
use twitchchat::commands::join;
use twitchchat::commands::raid;
use twitchchat::commands::unmod;
use twitchchat::commands::unvip;
use twitchchat::Encodable;

#[test]
fn give_mod_encode() {
    let mut out = String::new();
    give_mod("#museun", "shaken_bot").encode(&mut out);
    assert_eq!(out, "PRIVMSG #museun :/mod shaken_bot\r\n");
}

#[test]
fn give_mod_ensure_channel_encode() {
    let mut out = String::new();
    give_mod("museun", "shaken_bot").encode(&mut out);
    assert_eq!(out, "PRIVMSG #museun :/mod shaken_bot\r\n");
}

#[test]
fn raid_encode() {
    let mut out = String::new();
    raid("#museun", "#museun").encode(&mut out);
    assert_eq!(out, "PRIVMSG #museun :/raid #museun\r\n");
}

#[test]
fn raid_ensure_channel_encode() {
    let mut out = String::new();
    raid("museun", "#other").encode(&mut out);
    assert_eq!(out, "PRIVMSG #museun :/raid #other\r\n");
}

#[test]
fn unmod_encode() {
    let mut out = String::new();
    unmod("#museun", "museun").encode(&mut out);
    assert_eq!(out, "PRIVMSG #museun :/unmod museun\r\n");
}

#[test]
fn unmod_ensure_channel_encode() {
    let mut out = String::new();
    unmod("museun", "museun").encode(&mut out);
    assert_eq!(out, "PRIVMSG #museun :/unmod museun\r\n");
}

#[test]
fn unvip_encode() {
    let mut out = String::new();
    unvip("#museun", "museun").encode(&mut out);
    assert_eq!(out, "PRIVMSG #museun :/unvip museun\r\n");
}

#[test]
fn unvip_ensure_channel_encode() {
    let mut out = String::new();
    unvip("museun", "museun").encode(&mut out);
    assert_eq!(out, "PRIVMSG #museun :/unvip museun\r\n");
}

#[test]
fn join_encode() {
    let mut out = String::new();
    join("#museun").encode(&mut out);
    assert_eq!(out, "JOIN #museun\r\n");
}

#[test]
fn join_ensure_channel_encode() {
    let mut out = String::new();
    join("museun").encode(&mut out);
    assert_eq!(out, "JOIN #museun\r\n");
}

#[test]
fn join_empty_channel_encode() {
    let mut out = String::new();
    join("").encode(&mut out);
    assert_eq!(out, "JOIN #\r\n");
}
