use rusturn::attributes::ChannelNumber;
use rusturn::channel_data::ChannelData;
use rusturn::error::ErrorKind;
use rusturn::turn_message::{CodecError, TurnMessage, TurnMessageDecoder, TurnMessageEncoder};

fn stun_bytes(attr_len: usize) -> Vec<u8> {
    let mut b = vec![0x00, 0x01, (attr_len >> 8) as u8, attr_len as u8, 0x21, 0x12, 0xA4, 0x42];
    b.extend((0..12).map(|i| i as u8));
    b.extend((0..attr_len).map(|i| (i * 3) as u8));
    b
}

fn decode_all(decoder: &mut TurnMessageDecoder, input: &[u8]) -> Vec<TurnMessage> {
    let mut items = Vec::new();
    let mut offset = 0;
    while offset < input.len() {
        let n = decoder.decode(&input[offset..]).unwrap();
        offset += n;
        if decoder.is_complete() {
            items.push(decoder.finish_decoding().unwrap());
        } else {
            assert_eq!(offset, input.len());
        }
    }
    items
}

#[test]
fn channel_number_range() {
    assert_eq!(ChannelNumber::new(0x3FFF), Err(ErrorKind::InvalidInput));
    assert_eq!(ChannelNumber::new(0x8000), Err(ErrorKind::InvalidInput));
    assert_eq!(ChannelNumber::new(0x7FFF).unwrap().number(), 0x7FFF);
    assert_eq!(ChannelNumber::new(0x4000).unwrap().number(), 0x4000);
}

#[test]
fn channel_number_wraps() {
    let max = ChannelNumber::max();
    assert_eq!(max.wrapping_increment().number(), 0x4000);
    assert_eq!(ChannelNumber::min().wrapping_increment().number(), 0x4001);
}

#[test]
fn channel_data_too_long_rejected() {
    let n = ChannelNumber::min();
    assert!(ChannelData::new(n, vec![0; 0x10000]).is_err());
    assert!(ChannelData::new(n, vec![0; 0xFFFF]).is_ok());
}

#[test]
fn channel_data_encoding() {
    let cd = ChannelData::new(ChannelNumber::min(), b"hi".to_vec()).unwrap();
    assert_eq!(cd.encode(false), vec![0x40, 0x00, 0x00, 0x02, b'h', b'i']);
    assert_eq!(cd.encode(true), vec![0x40, 0x00, 0x00, 0x02, b'h', b'i', 0, 0]);
}

#[test]
fn channel_data_round_trip_tcp_and_udp() {
    for padded in [false, true] {
        for len in [0usize, 1, 3, 4, 5, 300] {
            let data: Vec<u8> = (0..len).map(|i| i as u8).collect();
            let cd = ChannelData::new(ChannelNumber::new(0x4abc).unwrap(), data.clone()).unwrap();
            let mut enc = TurnMessageEncoder::new(padded);
            enc.start_encoding(TurnMessage::ChannelData(cd)).unwrap();
            let mut bytes = Vec::new();
            enc.encode(&mut bytes, usize::MAX);
            assert!(enc.is_idle());
            let mut dec = TurnMessageDecoder::new(padded);
            let items = decode_all(&mut dec, &bytes);
            assert_eq!(items.len(), 1);
            match &items[0] {
                TurnMessage::ChannelData(got) => {
                    assert_eq!(got.channel_number().number(), 0x4abc);
                    assert_eq!(got.data(), &data);
                }
                other => panic!("unexpected {:?}", other),
            }
        }
    }
}

#[test]
fn stun_frame_round_trip() {
    let bytes = stun_bytes(8);
    let mut enc = TurnMessageEncoder::new(true);
    enc.start_encoding(TurnMessage::Stun(bytes.clone())).unwrap();
    assert_eq!(enc.exact_requiring_bytes(), 28);
    let mut out = Vec::new();
    assert_eq!(enc.encode(&mut out, 10), 10);
    assert_eq!(enc.exact_requiring_bytes(), 18);
    assert_eq!(enc.encode(&mut out, 100), 18);
    assert_eq!(out, bytes);
    let mut dec = TurnMessageDecoder::new(true);
    let items = decode_all(&mut dec, &out);
    assert_eq!(items.len(), 1);
    match &items[0] {
        TurnMessage::Stun(b) => assert_eq!(b, &bytes),
        other => panic!("unexpected {:?}", other),
    }
}

#[test]
fn encoder_is_one_shot() {
    let mut enc = TurnMessageEncoder::new(false);
    enc.start_encoding(TurnMessage::Stun(stun_bytes(0))).unwrap();
    let second = enc.start_encoding(TurnMessage::Stun(stun_bytes(0)));
    assert_eq!(second, Err(CodecError::EncoderFull));
}

#[test]
fn unknown_prefix_rejected_without_consuming() {
    for first in [0x80u8, 0xC0, 0xBF, 0xFF] {
        let mut dec = TurnMessageDecoder::new(true);
        assert_eq!(dec.decode(&[first, 1, 2, 3]), Err(CodecError::UnknownPrefix));
        assert!(dec.is_idle());
    }
}

#[test]
fn empty_channel_data_and_incomplete_frame() {
    let mut dec = TurnMessageDecoder::new(false);
    let frame = [0x40u8, 0x00, 0x00, 0x00];
    assert_eq!(dec.decode(&frame), Ok(4));
    assert!(dec.finish_decoding().is_ok());
    let mut dec = TurnMessageDecoder::new(false);
    assert_eq!(dec.finish_decoding().unwrap_err(), CodecError::IncompleteDecoding);
}

#[test]
fn partial_frames_kept_across_calls() {
    let cd = ChannelData::new(ChannelNumber::min(), b"hello".to_vec()).unwrap();
    let bytes = cd.encode(true);
    let mut dec = TurnMessageDecoder::new(true);
    for (i, b) in bytes.iter().enumerate() {
        assert_eq!(dec.decode(&[*b]), Ok(1));
        assert_eq!(dec.is_complete(), i + 1 == bytes.len());
    }
    match dec.finish_decoding().unwrap() {
        TurnMessage::ChannelData(c) => assert_eq!(c.into_data(), b"hello".to_vec()),
        other => panic!("unexpected {:?}", other),
    }
}

#[test]
fn demultiplexes_stun_then_channel_data_tcp() {
    let stun = stun_bytes(40);
    assert_eq!(stun.len(), 60);
    let cd = ChannelData::new(ChannelNumber::min(), b"abcdef".to_vec()).unwrap();
    let frame = cd.encode(true);
    assert_eq!(frame.len(), 12);
    let mut stream = stun.clone();
    stream.extend(&frame);
    let mut dec = TurnMessageDecoder::new(true);
    let items = decode_all(&mut dec, &stream);
    assert_eq!(items.len(), 2);
    assert!(matches!(&items[0], TurnMessage::Stun(b) if b == &stun));
    assert!(matches!(&items[1], TurnMessage::ChannelData(c) if c.data() == &b"abcdef".to_vec()));
}

#[test]
fn demultiplexes_stun_then_channel_data_udp() {
    let stun = stun_bytes(40);
    let cd = ChannelData::new(ChannelNumber::min(), b"abcdefgh".to_vec()).unwrap();
    let frame = cd.encode(false);
    assert_eq!(frame.len(), 12);
    let short = ChannelData::new(ChannelNumber::min(), b"abc".to_vec()).unwrap();
    assert_eq!(short.encode(false).len(), 7);
    let mut stream = stun.clone();
    stream.extend(&frame);
    let mut dec = TurnMessageDecoder::new(false);
    let items = decode_all(&mut dec, &stream);
    assert_eq!(items.len(), 2);
    assert!(matches!(&items[0], TurnMessage::Stun(b) if b.len() == 60));
    assert!(matches!(&items[1], TurnMessage::ChannelData(c) if c.data().len() == 8));
}
