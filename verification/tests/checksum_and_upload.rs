use zoom65v3::checksum::checksum;
use zoom65v3::types::Zoom65Error;
use zoom65v3::upload::{upload_frames, upload_gif_frames, upload_image_frames};

#[test]
fn checksum_is_deterministic() {
    let data = [1u8, 2, 3, 4, 5, 250, 251, 252];
    assert_eq!(checksum(&data), checksum(&data));
    assert_eq!(checksum(&[]), checksum(&[]));
}

#[test]
fn checksum_known_value() {
    // the standard CRC-32 check value, rendered big-endian
    assert_eq!(checksum(b"123456789"), [0xCB, 0xF4, 0x39, 0x26]);
    assert_eq!(checksum(&[]), [0, 0, 0, 0]);
}

#[test]
fn checksum_detects_single_bit_flips() {
    let base = [7u8, 99, 0, 255, 31, 64];
    let code = checksum(&base);
    for i in 0..base.len() {
        for bit in 0..8 {
            let mut flipped = base;
            flipped[i] ^= 1 << bit;
            assert_ne!(checksum(&flipped), code);
        }
    }
}

#[test]
fn upload_plan_shape() {
    // 50 bytes split into chunks of 24, 24 and 2
    let data: Vec<u8> = (0..50u8).collect();
    let frames = upload_frames(&data, 1);
    assert_eq!(frames.len(), 3 + 4);

    // start frame announces the channel
    assert_eq!(frames[0].bytes[2], 4);
    assert_eq!(frames[0].bytes[4..6], [64, 1]);
    assert_eq!(frames[0].bytes[6], 1);

    // length frame announces the big-endian 32-bit total
    assert_eq!(frames[1].bytes[4..6], [64, 2]);
    assert_eq!(frames[1].bytes[6..10], [0, 0, 0, 50]);

    // end frame carries the fixed trailing flag, then the screen resets
    assert_eq!(frames[5].bytes[4..6], [64, 3]);
    assert_eq!(frames[5].bytes[6], 1);
    assert_eq!(frames[6].bytes[4..6], [16, 4]);
    assert_eq!(frames[6].bytes[2], 3);
}

#[test]
fn upload_chunk_indices_are_sequential() {
    let data = vec![9u8; 24 * 300 + 5];
    let frames = upload_frames(&data, 1);
    assert_eq!(frames.len(), 301 + 4);
    for i in 0..301usize {
        let f = &frames[2 + i];
        assert_eq!(f.bytes[0], 0);
        assert_eq!(f.bytes[1], 88);
        assert_eq!(f.bytes[3] as usize, i >> 8);
        assert_eq!(f.bytes[4] as usize, i & 255);
    }
}

#[test]
fn upload_chunks_reconstruct_buffer() {
    let data: Vec<u8> = (0..255u8).cycle().take(1000).collect();
    let frames = upload_frames(&data, 1);
    let count = (data.len() + 23) / 24;
    assert_eq!(frames.len(), count + 4);
    let mut rebuilt: Vec<u8> = Vec::new();
    for i in 0..count {
        let f = &frames[2 + i];
        let declared = f.bytes[2] as usize;
        // channel 1 never pads, so the declared length is 6 + chunk data
        let chunk_len = declared - 6;
        rebuilt.extend_from_slice(&f.bytes[5..5 + chunk_len]);
    }
    assert_eq!(rebuilt, data);
}

#[test]
fn upload_chunk_checksum_covers_span() {
    let data = vec![3u8; 30];
    let frames = upload_frames(&data, 1);
    // second chunk: 6 bytes of data, no padding
    let f = &frames[3];
    assert_eq!(f.bytes[2], 6 + 6);
    let span = &f.bytes[3..3 + 2 + 6];
    let crc = checksum(span);
    assert_eq!(f.bytes[11..15], crc);
}

#[test]
fn gif_final_chunk_padding_aligns_span() {
    // 50 % 24 == 2, so the final chunk is padded by 2 to a 4-byte span
    let data = vec![8u8; 50];
    let frames = upload_frames(&data, 2);
    let last_chunk = &frames[4];
    assert_eq!(last_chunk.bytes[2], 6 + 2 + 2);
    // the checksum is computed over index bytes, data and padding
    let span = [0u8, 2, 8, 8, 0, 0];
    assert_eq!(last_chunk.bytes[9..13], checksum(&span));

    // a remainder that is already 4-byte aligned takes no padding
    let data = vec![8u8; 28];
    let frames = upload_frames(&data, 2);
    assert_eq!(frames[3].bytes[2], 6 + 4);

    // an exact multiple of 24 takes no padding either
    let data = vec![8u8; 48];
    let frames = upload_frames(&data, 2);
    assert_eq!(frames[3].bytes[2], 6 + 24);
}

#[test]
fn image_channel_never_pads() {
    let data = vec![8u8; 50];
    let frames = upload_image_frames(&data);
    assert_eq!(frames[0].bytes[6], 1);
    assert_eq!(frames[4].bytes[2], 6 + 2);
}

#[test]
fn empty_buffer_uploads_no_chunks() {
    let frames = upload_frames(&[], 2);
    assert_eq!(frames.len(), 4);
    assert_eq!(frames[1].bytes[6..10], [0, 0, 0, 0]);
}

#[test]
fn gif_size_gate() {
    let data = vec![0u8; 1013808];
    assert_eq!(
        upload_gif_frames(&data).unwrap_err(),
        Zoom65Error::ImageTooLarge
    );
    let data = vec![0u8; 100];
    let frames = upload_gif_frames(&data).unwrap();
    assert_eq!(frames[0].bytes[6], 2);
    assert_eq!(frames.len(), 5 + 4);
}

#[test]
fn gif_just_under_limit_accepted() {
    let data = vec![0u8; 1013807];
    let frames = upload_gif_frames(&data).unwrap();
    assert_eq!(frames.len(), (1013807 + 23) / 24 + 4);
}
