use std::io::{Read, Write};

use binex::prelude::{Message, Meta as BinexMeta, MonumentGeoRecord, Record};
use flate2::{read::GzDecoder, write::GzEncoder, Compression};
use rinex2bin::cli::Cli;
use rinex2bin::pump::{encode_all, Pump, PumpError, PumpState, Step, BUF_SIZE};

fn meta_of(cli: &Cli) -> BinexMeta {
    let m = cli.binex_meta();
    BinexMeta { reversed: m.reversed, enhanced_crc: m.enhanced_crc, big_endian: m.big_endian }
}

fn message(meta: BinexMeta, comment: &str) -> Message {
    Message::new(meta, Record::new_monument_geo(MonumentGeoRecord::default().with_comment(comment)))
}

fn oversize(meta: BinexMeta) -> Message {
    let mut rec = MonumentGeoRecord::default();
    let long = "x".repeat(100);
    for _ in 0..60 {
        rec = rec.with_comment(&long);
    }
    Message::new(meta, Record::new_monument_geo(rec))
}

fn frame_of(msg: &Message) -> Vec<u8> {
    let mut buf = vec![0u8; BUF_SIZE];
    msg.encode(&mut buf, BUF_SIZE).unwrap();
    buf
}

fn default_cli() -> Cli {
    Cli::new("in.rnx".to_string(), false, false, false, None, false, None, false).unwrap()
}

#[test]
fn frames_follow_pull_order() {
    let meta = meta_of(&default_cli());
    let msgs = vec![message(meta, "first"), message(meta, "second"), message(meta, "first")];
    let mut out = Vec::new();
    let (pump, r) = encode_all(&msgs, &mut out);
    assert!(r.is_ok());
    assert_eq!(pump.state(), PumpState::Done);
    assert_eq!(out.len(), 3 * BUF_SIZE);
    for (i, m) in msgs.iter().enumerate() {
        assert_eq!(&out[i * BUF_SIZE..(i + 1) * BUF_SIZE], &frame_of(m)[..]);
    }
}

#[test]
fn default_framing_is_big_endian_standard_forward() {
    let meta = meta_of(&default_cli());
    let mut out = Vec::new();
    let (_, r) = encode_all(&[message(meta, "hello")], &mut out);
    assert!(r.is_ok());
    assert_eq!(out[0], 0xe2);
}

#[test]
fn flags_and_gzip_round_trip() {
    let cli = Cli::new("in.rnx".to_string(), true, true, true, None, false, None, true).unwrap();
    let meta = meta_of(&cli);
    let msgs = vec![message(meta, "a"), message(meta, "b")];
    let mut out = Vec::new();
    let (_, r) = encode_all(&msgs, &mut out);
    assert!(r.is_ok());
    assert_eq!(out[0], 0xd8);
    assert_eq!(out[BUF_SIZE], 0xd8);

    let mut gz = GzEncoder::new(Vec::new(), Compression::new(5));
    gz.write_all(&out).unwrap();
    let packed = gz.finish().unwrap();
    let mut unpacked = Vec::new();
    GzDecoder::new(&packed[..]).read_to_end(&mut unpacked).unwrap();
    assert_eq!(unpacked, out);
}

#[test]
fn oversize_message_aborts_without_partial_write() {
    let meta = meta_of(&default_cli());
    let msgs = vec![message(meta, "fits"), oversize(meta), message(meta, "never")];
    let mut out = Vec::new();
    let (pump, r) = encode_all(&msgs, &mut out);
    assert_eq!(r, Err(PumpError::FormattingError));
    assert_eq!(pump.state(), PumpState::Failed);
    assert_eq!(out, frame_of(&msgs[0]));
}

#[test]
fn empty_stream_writes_nothing() {
    let mut out = vec![7u8];
    let (pump, r) = encode_all(&[], &mut out);
    assert!(r.is_ok());
    assert_eq!(pump.state(), PumpState::Done);
    assert_eq!(out, vec![7u8]);
}

#[test]
fn step_encodes_into_cleared_buffer() {
    let meta = meta_of(&default_cli());
    let mut pump = Pump::new();
    assert!(pump.frame().iter().all(|b| *b == 0));
    let long = message(meta, "a considerably longer comment than the next one");
    let short = message(meta, "s");
    let n_long = match pump.step(Some(&long)) {
        Step::Write { len } => len,
        _ => panic!("expected a write"),
    };
    assert_eq!(pump.frame(), &frame_of(&long)[..]);
    let n_short = match pump.step(Some(&short)) {
        Step::Write { len } => len,
        _ => panic!("expected a write"),
    };
    assert!(n_short < n_long);
    assert_eq!(pump.frame(), &frame_of(&short)[..]);
    assert!(pump.frame()[n_short..].iter().all(|b| *b == 0));
    assert_eq!(pump.step(None), Step::Done);
    assert_eq!(pump.state(), PumpState::Done);
}

#[test]
fn frame_is_encoding_then_zeros_after_longer_message() {
    let meta = meta_of(&default_cli());
    let long = message(meta, "a considerably longer comment than the next one");
    let short = message(meta, "s");
    let mut alone = Vec::new();
    let (_, r) = encode_all(&[short.clone()], &mut alone);
    assert!(r.is_ok());
    let mut after = Vec::new();
    let (_, r) = encode_all(&[long, short], &mut after);
    assert!(r.is_ok());
    assert_eq!(&after[BUF_SIZE..], &alone[..]);
}

#[test]
fn repeated_messages_are_each_written() {
    let meta = meta_of(&default_cli());
    let m = message(meta, "same");
    let mut out = Vec::new();
    let (pump, r) = encode_all(&[m.clone(), m.clone()], &mut out);
    assert!(r.is_ok());
    assert_eq!(pump.state(), PumpState::Done);
    assert_eq!(&out[..BUF_SIZE], &out[BUF_SIZE..]);
    assert_eq!(out.len(), 2 * BUF_SIZE);
}
