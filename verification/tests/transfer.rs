use umi_cli::transfer::{
    Action, Milestone, TransferError, TransferSession, TransferState, BLOCK_SIZE,
};

fn put_le32(buf: &mut [u8], off: usize, v: u32) {
    buf[off..off + 4].copy_from_slice(&v.to_le_bytes());
}

/// A well-formed 512-byte firmware block record with the given index.
fn block(index: u32, total: u32) -> Vec<u8> {
    let mut b = vec![0u8; BLOCK_SIZE];
    put_le32(&mut b, 0, 0x0A32_4655); // first magic
    put_le32(&mut b, 4, 0x9E5D_5157); // second magic
    put_le32(&mut b, 12, 0x2000); // target address
    put_le32(&mut b, 16, 256); // payload length
    put_le32(&mut b, 20, index);
    put_le32(&mut b, 24, total);
    for i in 0..256 {
        b[32 + i] = (index as u8).wrapping_add(i as u8);
    }
    put_le32(&mut b, 508, 0x0AB1_6F30); // final magic
    b
}

fn image(total: u32) -> Vec<u8> {
    let mut bytes = Vec::new();
    for i in 0..total {
        bytes.extend_from_slice(&block(i, total));
    }
    bytes
}

#[test]
fn misaligned_image_is_refused_before_any_connection() {
    // Any length that is not a multiple of 512 fails while the session
    // is still unopened: no connection exists yet to refuse.
    for len in [1usize, 100, 511, 513, 1000] {
        match TransferSession::new(vec![0u8; len]) {
            Err(TransferError::Misaligned) => {}
            other => panic!("expected a misalignment failure, got {:?}", other),
        }
    }
}

#[test]
fn full_run_acknowledged_block_by_block() {
    let img = image(2);
    let mut session = TransferSession::new(img.clone()).unwrap();
    assert_eq!(session.state, TransferState::Idle);
    session.begin_connect();
    assert_eq!(session.state, TransferState::Connecting);
    session.connection_established();
    assert_eq!(session.state, TransferState::Transferring);

    // Block 0: sent verbatim, announces the erase cycle.
    match session.next_action().unwrap() {
        Action::Send { bytes, index, milestone } => {
            assert_eq!(bytes, img[0..BLOCK_SIZE].to_vec());
            assert_eq!(index, 0);
            assert_eq!(milestone, Some(Milestone::Erasing));
        }
        other => panic!("expected a block to send, got {:?}", other),
    }
    session.handle_response(b"ok\0").unwrap();
    assert_eq!(session.sent, BLOCK_SIZE);

    // Block 1: the loading milestone.
    match session.next_action().unwrap() {
        Action::Send { bytes, index, milestone } => {
            assert_eq!(bytes, img[BLOCK_SIZE..2 * BLOCK_SIZE].to_vec());
            assert_eq!(index, 1);
            assert_eq!(milestone, Some(Milestone::Loading));
        }
        other => panic!("expected a block to send, got {:?}", other),
    }
    session.handle_response(b"ok\0").unwrap();

    // Everything acknowledged.
    match session.next_action().unwrap() {
        Action::Finished => {}
        other => panic!("expected completion, got {:?}", other),
    }
    assert_eq!(session.state, TransferState::Done);
}

#[test]
fn later_blocks_have_no_milestone() {
    let img = image(3);
    let mut session = TransferSession::new(img).unwrap();
    session.begin_connect();
    session.connection_established();
    for expected_index in 0..3u32 {
        match session.next_action().unwrap() {
            Action::Send { index, milestone, .. } => {
                assert_eq!(index, expected_index);
                if expected_index >= 2 {
                    assert_eq!(milestone, None);
                }
            }
            other => panic!("expected a block to send, got {:?}", other),
        }
        session.handle_response(b"ok\0").unwrap();
    }
}

#[test]
fn error_response_after_block_zero_halts_the_run() {
    // Any 3-byte answer other than the literal acknowledgement fails
    // the run on the spot: the checkpoint stays at block zero and no
    // further block is offered.
    let mut session = TransferSession::new(image(2)).unwrap();
    session.begin_connect();
    session.connection_established();
    match session.next_action().unwrap() {
        Action::Send { index, .. } => assert_eq!(index, 0),
        other => panic!("expected a block to send, got {:?}", other),
    }
    match session.handle_response(b"err") {
        Err(TransferError::Protocol) => {}
        other => panic!("expected a protocol failure, got {:?}", other),
    }
    assert_eq!(session.sent, 0);
    assert_eq!(
        session.state,
        TransferState::Failed(TransferError::Protocol)
    );
}

#[test]
fn almost_right_responses_still_fail() {
    for resp in [*b"ok.", *b"OK\0", *b"\0ok"] {
        let mut session = TransferSession::new(image(1)).unwrap();
        session.begin_connect();
        session.connection_established();
        session.next_action().unwrap();
        assert!(session.handle_response(&resp).is_err());
        assert_eq!(
            session.state,
            TransferState::Failed(TransferError::Protocol)
        );
    }
}

#[test]
fn corrupt_block_fails_the_run() {
    // Break the first magic word of the second block.
    let mut img = image(2);
    img[BLOCK_SIZE] ^= 0xFF;
    let mut session = TransferSession::new(img).unwrap();
    session.begin_connect();
    session.connection_established();
    session.next_action().unwrap();
    session.handle_response(b"ok\0").unwrap();
    match session.next_action() {
        Err(TransferError::BadBlock) => {}
        other => panic!("expected a bad-block failure, got {:?}", other),
    }
    assert_eq!(session.state, TransferState::Failed(TransferError::BadBlock));
}

#[test]
fn index_beyond_total_fails_the_run() {
    // A block record whose index is not below its total count does not
    // parse as firmware.
    let mut img = block(5, 3);
    img.extend_from_slice(&block(1, 3));
    let mut session = TransferSession::new(img).unwrap();
    session.begin_connect();
    session.connection_established();
    match session.next_action() {
        Err(TransferError::BadBlock) => {}
        other => panic!("expected a bad-block failure, got {:?}", other),
    }
}

#[test]
fn connection_failure_is_distinct_from_protocol_failure() {
    let mut session = TransferSession::new(image(1)).unwrap();
    session.begin_connect();
    session.connection_failed();
    assert_eq!(
        session.state,
        TransferState::Failed(TransferError::Connection)
    );
}

#[test]
fn empty_image_finishes_at_once() {
    let mut session = TransferSession::new(Vec::new()).unwrap();
    session.begin_connect();
    session.connection_established();
    match session.next_action().unwrap() {
        Action::Finished => {}
        other => panic!("expected completion, got {:?}", other),
    }
    assert_eq!(session.state, TransferState::Done);
}
