use twitchchat::commands::join;
use twitchchat::AsyncEncoder;
use twitchchat::Encodable;
use twitchchat::Encoder;

#[test]
fn encoder() {
    let mut encoder = Encoder::new(String::new());

    encoder.encode(join("#museun"));
    encoder.encode(join("#shaken_bot"));

    let out = encoder.into_inner();
    assert_eq!(out, "JOIN #museun\r\nJOIN #shaken_bot\r\n");
}

#[test]
fn encoder_buffered() {
    let mut encoder = AsyncEncoder::new(String::new());

    encoder.encode_sync(join("#museun"));
    encoder.encode_sync(join("#shaken_bot"));

    let out = encoder.into_inner();
    assert_eq!(out, "JOIN #museun\r\nJOIN #shaken_bot\r\n");
}

#[test]
fn encodable_builtin() {
    let input = "hello world\r\n";

    let mut encoder = Encoder::new(String::new());
    encoder.encode(input);
    assert_eq!(encoder.into_inner(), input);

    let mut encoder = Encoder::new(String::new());
    encoder.encode(input.to_string());
    assert_eq!(encoder.into_inner(), input);

    let mut encoder = Encoder::new(String::new());
    encoder.encode(&input.to_string());
    assert_eq!(encoder.into_inner(), input);
}

#[test]
fn encoder_keeps_producer_order() {
    let mut encoder = Encoder::new(String::new());

    encoder.encode(join("#first"));
    encoder.encode(join("#second"));
    encoder.encode(join("#third"));

    let out = encoder.into_inner();
    assert_eq!(out, "JOIN #first\r\nJOIN #second\r\nJOIN #third\r\n");
}
