use base58::ToBase58;
use reserve_proof::frames::{frame_payload, frame_texts};

fn sample_payload(len: usize) -> Vec<u8> {
    let mut data = Vec::with_capacity(len);
    for i in 0..len {
        data.push((i % 251) as u8);
    }
    data
}

#[test]
fn frames_split_in_order() {
    let data = sample_payload(900);
    let frames = frame_payload(&data);
    assert_eq!(frames.len(), 3);
    assert_eq!(frames[0].len(), 400);
    assert_eq!(frames[1].len(), 400);
    assert_eq!(frames[2].len(), 100);
    let mut joined = Vec::new();
    for frame in &frames {
        joined.extend_from_slice(frame);
    }
    assert_eq!(joined, data);
}

#[test]
fn frames_empty_payload() {
    let data: Vec<u8> = Vec::new();
    assert!(frame_payload(&data).is_empty());
}

#[test]
fn frames_exact_multiple() {
    let data = sample_payload(800);
    let frames = frame_payload(&data);
    assert_eq!(frames.len(), 2);
    assert_eq!(frames[1].len(), 400);
}

#[test]
fn frame_texts_are_base58() {
    let data = sample_payload(450);
    let texts = frame_texts(&data);
    assert_eq!(texts.len(), 2);
    assert_eq!(texts[0], data[..400].to_base58());
    assert_eq!(texts[1], data[400..].to_base58());
}
