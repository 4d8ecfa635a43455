use guest_boundary::b64::decode_text;
use guest_boundary::codec::document;
use guest_boundary::codec::Message;

const ALPHABET: &[u8; 64] = b"ABCDEFGHIJKLMNOPQRSTUVWXYZabcdefghijklmnopqrstuvwxyz0123456789+/";

fn text_by_hand(bytes: &[u8]) -> String {
    let mut text = String::new();
    for group in bytes.chunks(3) {
        let a = group[0] as usize;
        let b = if group.len() > 1 { group[1] as usize } else { 0 };
        let c = if group.len() > 2 { group[2] as usize } else { 0 };
        text.push(ALPHABET[a / 4] as char);
        text.push(ALPHABET[a % 4 * 16 + b / 16] as char);
        if group.len() > 1 {
            text.push(ALPHABET[b % 16 * 4 + c / 64] as char);
        } else {
            text.push('=');
        }
        if group.len() > 2 {
            text.push(ALPHABET[c % 64] as char);
        } else {
            text.push('=');
        }
    }
    text
}

fn text_of(bytes: &[u8]) -> String {
    let made = document(Message { headers: serde_json::Map::new(), body: bytes.to_vec() });
    made.get("body").unwrap().as_str().unwrap().to_string()
}

fn six_bits(symbol: u8) -> Option<usize> {
    ALPHABET.iter().position(|&known| known == symbol)
}

#[test]
fn text_of_short_bodies_is_standard_base64() {
    assert_eq!(text_of(b""), "");
    for a in 0..=255u8 {
        assert_eq!(text_of(&[a]), text_by_hand(&[a]));
        for b in 0..=255u8 {
            assert_eq!(text_of(&[a, b]), text_by_hand(&[a, b]));
        }
    }
}

#[test]
fn text_of_longer_bodies_is_standard_base64() {
    let mut body: Vec<u8> = Vec::new();
    let mut next: u32 = 12345;
    for _ in 0..300 {
        assert_eq!(text_of(&body), text_by_hand(&body));
        next = next.wrapping_mul(1_103_515_245).wrapping_add(12_345);
        body.push((next >> 16) as u8);
    }
}

#[test]
fn decode_text_undoes_the_text_of_short_bodies() {
    assert_eq!(decode_text(""), Some(Vec::new()));
    for a in 0..=255u8 {
        assert_eq!(decode_text(&text_by_hand(&[a])), Some(vec![a]));
        for b in 0..=255u8 {
            assert_eq!(decode_text(&text_by_hand(&[a, b])), Some(vec![a, b]));
        }
    }
}

#[test]
fn decode_text_undoes_the_text_of_longer_bodies() {
    let mut body: Vec<u8> = Vec::new();
    let mut next: u32 = 54321;
    for _ in 0..300 {
        assert_eq!(decode_text(&text_by_hand(&body)), Some(body.clone()));
        next = next.wrapping_mul(1_103_515_245).wrapping_add(12_345);
        body.push((next >> 16) as u8);
    }
}

#[test]
fn decode_text_takes_a_group_only_as_it_would_be_written() {
    let mut symbols: Vec<u8> = ALPHABET.to_vec();
    symbols.extend_from_slice(b"=-_ ");
    let firsts = b"AQgz09+/=-";
    for &s0 in firsts {
        for &s1 in &symbols {
            for &s2 in &symbols {
                for &s3 in &symbols {
                    let group = [s0, s1, s2, s3];
                    let text = std::str::from_utf8(&group).unwrap();
                    let expected = match (six_bits(s0), six_bits(s1), six_bits(s2), six_bits(s3)) {
                        (Some(a), Some(b), Some(c), Some(d)) => Some(vec![
                            (a * 4 + b / 16) as u8,
                            (b % 16 * 16 + c / 4) as u8,
                            (c % 4 * 64 + d) as u8,
                        ]),
                        (Some(a), Some(b), Some(c), None) if s3 == b'=' && c % 4 == 0 => {
                            Some(vec![(a * 4 + b / 16) as u8, (b % 16 * 16 + c / 4) as u8])
                        }
                        (Some(a), Some(b), None, None)
                            if s2 == b'=' && s3 == b'=' && b % 16 == 0 =>
                        {
                            Some(vec![(a * 4 + b / 16) as u8])
                        }
                        _ => None,
                    };
                    assert_eq!(decode_text(text), expected, "text {:?}", text);
                }
            }
        }
    }
}

#[test]
fn decode_text_takes_no_text_of_a_broken_length() {
    for text in ["A", "AA", "AAA", "AAAAA", "AAAAAA", "AAAAAAA", "AAAA=", "AAAA==", "AAAAA==="] {
        assert_eq!(decode_text(text), None, "text {:?}", text);
    }
}

#[test]
fn decode_text_takes_padding_only_at_the_end() {
    for text in ["AA==AAAA", "AAA=AAAA", "=AAA", "A=AA", "AA=A", "AAAAAA==AAAA", "===="] {
        assert_eq!(decode_text(text), None, "text {:?}", text);
    }
    assert_eq!(decode_text("AAAAAA=="), Some(vec![0, 0, 0, 0]));
    assert_eq!(decode_text("AAAAAAA="), Some(vec![0, 0, 0, 0, 0]));
}
