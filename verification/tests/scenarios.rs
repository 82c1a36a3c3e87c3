use keeb_lighting::{
    mode_preset, needs_read_back, rgb, Direction, Key, LightingUpdateMessage, Mode, Step,
};
use std::collections::HashMap;
use std::iter::FromIterator;

/// Walks through a transfer of the blocks in which every step succeeds, and
/// returns what was written and after which blocks a report was read back.
fn transfer(blocks: &[[u8; 65]; 26]) -> (Vec<[u8; 65]>, Vec<usize>) {
    let mut written = Vec::new();
    let mut read_back = Vec::new();
    let mut step = Step::first();
    loop {
        match step {
            Step::Write(block) => written.push(blocks[block]),
            Step::ReadBack(block) => read_back.push(block),
            Step::Finished | Step::Aborted(_) => break,
        }
        step = step.next(true);
    }
    (written, read_back)
}

#[test]
fn test_send_lighting_update_message() {
    let lum_rolling = LightingUpdateMessage::set_active_mode(mode_preset(
        Mode::Rolling,
        rgb(0, 0, 0),
        true,
        2,
        6,
        Direction::Left,
    ));

    let lum_emerald = LightingUpdateMessage::set_active_mode(mode_preset(
        Mode::Static,
        rgb(25, 255, 50),
        false,
        16,
        1,
        Direction::Right,
    ));

    let lum_off = LightingUpdateMessage::set_backlight_off();

    let lum_ripples = LightingUpdateMessage::set_active_mode(mode_preset(
        Mode::Ripples,
        rgb(25, 255, 50),
        true,
        16,
        13,
        Direction::Right,
    ));

    let expected: [(&LightingUpdateMessage, [u8; 16]); 4] = [
        (&lum_rolling, [0x0b, 0, 0, 0, 0, 0, 0, 0, 1, 2, 6, 1, 0, 0, 0xAA, 0x55]),
        (&lum_off, [0x00, 0, 0, 0, 0, 0, 0, 0, 0, 1, 1, 0, 0, 0, 0xAA, 0x55]),
        (&lum_emerald, [0x01, 25, 255, 50, 0, 0, 0, 0, 0, 16, 1, 0, 0, 0, 0xAA, 0x55]),
        (&lum_ripples, [0x0f, 25, 255, 50, 0, 0, 0, 0, 1, 16, 13, 0, 0, 0, 0xAA, 0x55]),
    ];
    for (lum, active_record) in expected {
        let blocks = lum.construct_feature_report_data_blocks();
        let (written, read_back) = transfer(&blocks);
        assert_eq!(written.len(), 26);
        assert_eq!(&written[..], &blocks[..]);
        assert_eq!(read_back, vec![0, 1, 3, 4, 23, 25]);
        assert_eq!(&written[22][1..17], &active_record);
        let code = active_record[0] as usize;
        if code != 0 {
            let at = 0x140 + (code - 1) * 0x10;
            assert_eq!(&written[at / 64][at % 64 + 1..at % 64 + 17], &active_record);
        }
    }
}

#[test]
fn test_if_typing_allow_during_message_update() {
    let orange = rgb(255, 128, 15);
    let cyan = rgb(15, 240, 255);
    let lum1 = LightingUpdateMessage::set_user_defined(
        16,
        HashMap::from_iter([
            (Key::Q.code(), orange),
            (Key::W.code(), orange),
            (Key::E.code(), orange),
        ]),
    );
    let lum2 = LightingUpdateMessage::set_user_defined(
        16,
        HashMap::from_iter([
            (Key::A.code(), cyan),
            (Key::S.code(), cyan),
            (Key::D.code(), cyan),
        ]),
    );

    for _ in 0..3 {
        let (written, read_back) = transfer(&lum1.construct_feature_report_data_blocks());
        assert_eq!(written.len(), 26);
        assert_eq!(read_back, vec![0, 1, 3, 4, 23, 25]);
        // Q, W and E stand at 0x3d8, 0x3dc and 0x3e0: bytes 24 to 35 of page 15.
        assert_eq!(
            &written[15][25..37],
            &[0x80, 255, 128, 15, 0x80, 255, 128, 15, 0x80, 255, 128, 15]
        );
        // A, S and D stand at 0x420, 0x424 and 0x428: bytes 32 to 43 of page 16.
        assert_eq!(&written[16][33..45], &[0x80, 0, 0, 0, 0x80, 0, 0, 0, 0x80, 0, 0, 0]);

        let (written, read_back) = transfer(&lum2.construct_feature_report_data_blocks());
        assert_eq!(written.len(), 26);
        assert_eq!(read_back, vec![0, 1, 3, 4, 23, 25]);
        assert_eq!(&written[15][25..37], &[0x80, 0, 0, 0, 0x80, 0, 0, 0, 0x80, 0, 0, 0]);
        assert_eq!(
            &written[16][33..45],
            &[0x80, 15, 240, 255, 0x80, 15, 240, 255, 0x80, 15, 240, 255]
        );
        assert_eq!(
            &written[22][1..17],
            &[0x80, 0xff, 0xff, 0xff, 0, 0, 0, 0, 0, 16, 1, 0, 0, 0, 0xAA, 0x55]
        );
    }
}

#[test]
fn test_send_lighting_update_message_verbose_manual() {
    let lum = LightingUpdateMessage::set_active_mode(mode_preset(
        Mode::Rolling,
        rgb(0, 0, 0),
        true,
        2,
        6,
        Direction::Left,
    ));

    let data_blocks = lum.construct_feature_report_data_blocks();

    let mut answered = Vec::new();
    for (block_num, block) in data_blocks.iter().enumerate() {
        assert_eq!(block.len(), 65);
        assert_eq!(block[0], 0);
        match block_num {
            0 | 1 | 3 | 4 | 23 | 25 => {
                assert!(needs_read_back(block_num));
                answered.push(block_num);
            }
            _ => assert!(!needs_read_back(block_num)),
        }
    }
    assert_eq!(answered, vec![0, 1, 3, 4, 23, 25]);
    assert_eq!(
        &data_blocks[7][33..49],
        &[0x0b, 0, 0, 0, 0, 0, 0, 0, 1, 2, 6, 1, 0, 0, 0xAA, 0x55]
    );
}
