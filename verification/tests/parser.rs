use l0_comm::packet::{Packet, Sequencer};
use l0_comm::parser::{
    ParseResult, Parser, SyncStateReader, TimerAction, SYNC_ACK, SYNC_REQ, SYNC_STATE_READY,
    SYNC_STATE_RECV,
};

#[test]
fn test_parser_reset() {
    let mut p = Parser::new();
    let pr = p.reset();
    assert_eq!(pr.sync, SYNC_REQ);
    assert_eq!(pr.state, 0);
    assert!(pr.packet.is_none());
}

#[test]
fn test_sync_state() {
    assert!(!0u8.is_ready());
    assert!(!0u8.is_receiving());
    assert!(SYNC_STATE_READY.is_ready());
    assert!(!SYNC_STATE_READY.is_receiving());
    assert!(!SYNC_STATE_RECV.is_ready());
    assert!(SYNC_STATE_RECV.is_receiving());
    assert!((SYNC_STATE_READY | SYNC_STATE_RECV).is_ready());
    assert!((SYNC_STATE_READY | SYNC_STATE_RECV).is_receiving());
}

fn check_timer_action(pr: ParseResult, expected: TimerAction) {
    assert_eq!(pr.timer_action(), expected);
}

#[test]
fn test_parse_result_sync() {
    check_timer_action(ParseResult { sync: 0, state: 0, packet: None }, TimerAction::NoChange);
}

#[test]
fn test_parse_result_sync_req() {
    check_timer_action(ParseResult { sync: SYNC_REQ, state: 0, packet: None }, TimerAction::Restart);
}

#[test]
fn test_parse_result_sync_ack() {
    check_timer_action(ParseResult { sync: SYNC_ACK, state: 0, packet: None }, TimerAction::NoChange);
}

#[test]
fn test_parse_result_recv() {
    check_timer_action(
        ParseResult { sync: 0, state: SYNC_STATE_RECV, packet: None },
        TimerAction::Restart,
    );
}

#[test]
fn test_parse_result_ready() {
    check_timer_action(
        ParseResult { sync: 0, state: SYNC_STATE_READY, packet: None },
        TimerAction::Stop,
    );
}

#[test]
fn test_parse_result_ready_ack() {
    check_timer_action(
        ParseResult { sync: SYNC_ACK, state: SYNC_STATE_READY, packet: None },
        TimerAction::Stop,
    );
}

struct ParserTestSeq {
    input: Vec<u8>,
    expect: ParseResult,
    last: ParseResult,
}

impl ParserTestSeq {
    fn new() -> ParserTestSeq {
        ParserTestSeq {
            input: Vec::new(),
            expect: ParseResult { sync: 0, state: 0, packet: None },
            last: ParseResult { sync: 0, state: 0, packet: None },
        }
    }

    fn parse(mut self, input: &[u8]) -> Self {
        let v = &mut self.input;
        v.extend_from_slice(input);
        self
    }

    fn expect(mut self, pr: ParseResult) -> Self {
        self.expect = pr;
        self
    }

    fn expect_syncing(self) -> Self {
        self.expect(ParseResult { sync: 0, state: SYNC_STATE_RECV, packet: None })
    }

    fn expect_receiving(self) -> Self {
        self.expect(ParseResult { sync: 0, state: SYNC_STATE_READY | SYNC_STATE_RECV, packet: None })
    }

    fn expect_last(mut self, pr: ParseResult) -> Self {
        self.last = pr;
        self
    }

    fn syncing(self) -> Self {
        self.expect_last(ParseResult { sync: 0, state: SYNC_STATE_RECV, packet: None })
    }

    fn resync(self) -> Self {
        self.expect_last(ParseResult { sync: SYNC_REQ, state: 0, packet: None })
    }

    fn synced(self) -> Self {
        self.expect_last(ParseResult { sync: 0, state: SYNC_STATE_READY, packet: None })
    }

    fn synced_with_ack(self) -> Self {
        self.expect_last(ParseResult { sync: SYNC_ACK, state: SYNC_STATE_READY, packet: None })
    }

    fn packet(self, seq: u8, code: u8, data: &[u8]) -> Self {
        self.expect_last(ParseResult {
            sync: 0,
            state: SYNC_STATE_READY,
            packet: Some(Packet { seq, code, data: Vec::from(data) }),
        })
    }
}

fn parse(input: &[u8]) -> ParserTestSeq {
    ParserTestSeq::new().parse(input)
}

fn timeout() -> ParserTestSeq {
    ParserTestSeq::new()
}

fn test_parser(seqs: &[ParserTestSeq]) {
    let mut p = Parser::new();
    for seq in seqs {
        let l = seq.input.len();
        let pr = if l > 0 {
            for i in 0..l - 1 {
                assert_eq!(p.parse(seq.input[i]), seq.expect);
            }
            p.parse(seq.input[l - 1])
        } else {
            p.timeout()
        };
        assert_eq!(pr, seq.last);
    }
}

#[test]
fn test_parser_sync_and_recv() {
    test_parser(&[
        parse(&[SYNC_ACK, 1]).expect_syncing().synced(),
        parse(&[1, 2]).expect_receiving().packet(1, 2, &[]),
        parse(&[2, 0x72, 0]).expect_receiving().packet(2, 2, &[]),
        parse(&[3, 0x92, 3]).expect_receiving().packet(3, 0x82, &[3]),
        parse(&[4, 0x72, 0x08, 1, 2, 3, 4, 5, 6, 7, 8])
            .expect_receiving()
            .packet(4, 2, &[1, 2, 3, 4, 5, 6, 7, 8]),
    ]);
}

#[test]
fn test_parser_sync_timeout() {
    test_parser(&[timeout().resync(), parse(&[SYNC_ACK]).syncing(), timeout().resync()]);
}

#[test]
fn test_parser_sync_skip_invalid_bytes() {
    test_parser(&[
        parse(&[1, 2, 3, 4, 0x80, 0x81, 0xf0, 0xf1]),
        parse(&[SYNC_ACK, 1]).expect_syncing().synced(),
    ]);
}

#[test]
fn test_parser_handle_req_in_sync() {
    test_parser(&[parse(&[SYNC_REQ, 1]).expect_syncing().synced_with_ack()]);
}

#[test]
fn test_parser_handle_req_in_sync_with_invalid_seq() {
    test_parser(&[
        parse(&[SYNC_REQ, SYNC_REQ]).expect_syncing().resync(),
        parse(&[SYNC_ACK, 1]).expect_syncing().synced(),
    ]);
}

#[test]
fn test_parser_handle_req_after_sync() {
    test_parser(&[
        parse(&[SYNC_ACK, 1]).expect_syncing().synced(),
        parse(&[SYNC_REQ, 1]).expect_syncing().synced_with_ack(),
        parse(&[1, 2]).expect_receiving().packet(1, 2, &[]),
    ]);
}

#[test]
fn test_parser_handle_req_after_sync_with_invalid_seq() {
    test_parser(&[
        parse(&[SYNC_ACK, 1]).expect_syncing().synced(),
        parse(&[SYNC_REQ, SYNC_ACK]).expect_syncing().resync(),
        parse(&[SYNC_ACK, 1]).expect_syncing().synced(),
    ]);
}

#[test]
fn test_parser_handle_ack_in_sync_with_invalid_seq() {
    test_parser(&[
        parse(&[SYNC_ACK, SYNC_REQ]).expect_syncing().resync(),
        parse(&[SYNC_ACK, 1]).expect_syncing().synced(),
    ]);
}

#[test]
fn test_parser_handle_ack_after_sync() {
    test_parser(&[
        parse(&[SYNC_ACK, 1]).expect_syncing().synced(),
        parse(&[SYNC_ACK, 1]).expect_receiving().synced(),
        parse(&[1, 2]).expect_receiving().packet(1, 2, &[]),
    ]);
}

#[test]
fn test_parser_ack_invalid_seq_after_sync() {
    test_parser(&[
        parse(&[SYNC_ACK, 1]).expect_syncing().synced(),
        parse(&[SYNC_ACK, 2]).expect_receiving().resync(),
        parse(&[SYNC_ACK, 2]).expect_syncing().synced(),
        parse(&[2, 2]).expect_receiving().packet(2, 2, &[]),
    ]);
}

#[test]
fn test_parser_invalid_seq() {
    test_parser(&[
        parse(&[SYNC_ACK, 1]).expect_syncing().synced(),
        parse(&[1, 2]).expect_receiving().packet(1, 2, &[]),
        parse(&[1]).expect_syncing().resync(),
        parse(&[0x92, 3]),
        parse(&[SYNC_ACK, 3]).expect_syncing().synced(),
    ]);
}

#[test]
fn test_parser_invalid_data_len() {
    test_parser(&[
        parse(&[SYNC_ACK, 1]).expect_syncing().synced(),
        parse(&[1, 0x70, 0x80]).expect_receiving().resync(),
        parse(&[1, 2, 3, 4]),
        parse(&[SYNC_ACK, 1]).expect_syncing().synced(),
    ]);
}

#[test]
fn test_parser_small_and_large_data_with_second_handshake() {
    test_parser(&[
        parse(&[SYNC_ACK, 1]).expect_syncing().synced(),
        parse(&[1, 0x92, 3]).expect_receiving().packet(1, 0x82, &[3]),
        parse(&[SYNC_REQ, 4]).expect_syncing().synced_with_ack(),
        parse(&[4, 0x72, 0x08, 1, 2, 3, 4, 5, 6, 7, 8])
            .expect_receiving()
            .packet(4, 2, &[1, 2, 3, 4, 5, 6, 7, 8]),
    ]);
}

#[test]
fn test_parser_timeout_while_idle_changes_nothing() {
    test_parser(&[
        parse(&[SYNC_ACK, 5]).expect_syncing().synced(),
        timeout().synced(),
        timeout().synced(),
        parse(&[5, 1]).expect_receiving().packet(5, 1, &[]),
        timeout().synced(),
        parse(&[6, 3]).expect_receiving().packet(6, 3, &[]),
    ]);
}

#[test]
fn test_parser_timeout_inside_frame_desyncs() {
    test_parser(&[
        parse(&[SYNC_ACK, 5]).expect_syncing().synced(),
        parse(&[5, 0x31, 1]).expect_receiving().expect_last(ParseResult {
            sync: 0,
            state: SYNC_STATE_READY | SYNC_STATE_RECV,
            packet: None,
        }),
        timeout().resync(),
        parse(&[2, 3]),
        parse(&[SYNC_ACK, 9]).expect_syncing().synced(),
        parse(&[9, 0x11, 0x55]).expect_receiving().packet(9, 1, &[0x55]),
    ]);
}

#[test]
fn test_parser_timeout_in_every_receiving_state() {
    let prefixes: [&[u8]; 7] = [
        &[SYNC_REQ],
        &[SYNC_ACK],
        &[SYNC_ACK, 1, SYNC_ACK],
        &[SYNC_ACK, 1, 1],
        &[SYNC_ACK, 1, 1, 0x70],
        &[SYNC_ACK, 1, 1, 0x20],
        &[SYNC_ACK, 1, 1, 0x70, 9, 1],
    ];
    for prefix in prefixes {
        let mut p = Parser::new();
        for b in prefix {
            p.parse(*b);
        }
        assert_eq!(p.timeout(), ParseResult { sync: SYNC_REQ, state: 0, packet: None });
        assert_eq!(p.parse(1), ParseResult { sync: 0, state: 0, packet: None });
    }
}

#[test]
fn test_parser_payload_may_hold_sync_bytes_and_sequence() {
    test_parser(&[
        parse(&[SYNC_ACK, 0xef]).expect_syncing().synced(),
        parse(&[0xef, 0x40, SYNC_REQ, SYNC_ACK, 0xef, 1])
            .expect_receiving()
            .packet(0xef, 0, &[SYNC_REQ, SYNC_ACK, 0xef, 1]),
        parse(&[1, 0x8f]).expect_receiving().packet(1, 0x8f, &[]),
    ]);
}

#[test]
fn test_parser_sequence_wraps() {
    let mut p = Parser::new();
    p.parse(SYNC_ACK);
    p.parse(0xee);
    for seq in [0xee, 0xef, 1, 2] {
        p.parse(seq);
        let pr = p.parse(0x05);
        assert_eq!(
            pr,
            ParseResult {
                sync: 0,
                state: SYNC_STATE_READY,
                packet: Some(Packet::new_with(seq, 5)),
            }
        );
    }
}

#[test]
fn test_parser_extended_length_bounds() {
    let data: Vec<u8> = (1..=127).collect();
    let mut input = vec![7, 0x71, 127];
    input.extend_from_slice(&data);
    test_parser(&[
        parse(&[SYNC_ACK, 7]).expect_syncing().synced(),
        parse(&input).expect_receiving().packet(7, 1, &data),
        parse(&[8, 0x71, 1, 0xaa]).expect_receiving().packet(8, 1, &[0xaa]),
        parse(&[9, 0xf1, 0xff]).expect_receiving().resync(),
    ]);
}

#[test]
fn test_parser_nibble_lengths() {
    let mut p = Parser::new();
    p.parse(SYNC_ACK);
    p.parse(1);
    let mut seq = 1u8;
    for len in 1..=6u8 {
        assert_eq!(p.parse(seq).state, SYNC_STATE_READY | SYNC_STATE_RECV);
        assert_eq!(p.parse((len << 4) | 0x0c).state, SYNC_STATE_READY | SYNC_STATE_RECV);
        for i in 1..len {
            let pr = p.parse(i);
            assert_eq!(
                pr,
                ParseResult { sync: 0, state: SYNC_STATE_READY | SYNC_STATE_RECV, packet: None }
            );
        }
        let pr = p.parse(len);
        let data: Vec<u8> = (1..=len).collect();
        assert_eq!(
            pr,
            ParseResult {
                sync: 0,
                state: SYNC_STATE_READY,
                packet: Some(Packet { seq, code: 0x0c, data }),
            }
        );
        seq = seq.next();
    }
}

#[test]
fn test_parser_reset_twice_gives_same_result() {
    let prefixes: [&[u8]; 5] =
        [&[], &[SYNC_REQ], &[SYNC_ACK, 1], &[SYNC_ACK, 1, 1], &[SYNC_ACK, 1, 1, 0x21, 7]];
    for prefix in prefixes {
        let mut p = Parser::new();
        for b in prefix {
            p.parse(*b);
        }
        let first = p.reset();
        let second = p.reset();
        assert_eq!(first, second);
        assert_eq!(first, ParseResult { sync: SYNC_REQ, state: 0, packet: None });
        assert_eq!(first.timer_action(), TimerAction::Restart);
        assert_eq!(p.parse(3), ParseResult { sync: 0, state: 0, packet: None });
    }
}

#[test]
fn test_parser_clears_reserved_code_bits() {
    for code in 0..=255u8 {
        let mut p = Parser::new();
        p.parse(SYNC_ACK);
        p.parse(1);
        let mut w: Vec<u8> = Vec::new();
        Packet { seq: 1, code, data: vec![1, 2, 3] }.encode(&mut w);
        let mut last = ParseResult { sync: 0, state: 0, packet: None };
        for b in w {
            last = p.parse(b);
        }
        let pkt = last.packet.unwrap();
        assert_eq!(pkt.code & 0x70, 0);
        assert_eq!(pkt.code, code & 0x8f);
    }
}

#[test]
fn test_encode_round_trip() {
    for seq in [1u8, 0x42, 0xef] {
        for code in [0u8, 2, 0x82, 0xff] {
            for len in 0..=127usize {
                let data: Vec<u8> = (0..len).map(|i| (i * 7 + 250) as u8).collect();
                let pkt = Packet { seq, code, data };
                let mut w: Vec<u8> = Vec::new();
                let count = pkt.encode(&mut w);
                assert_eq!(count, w.len());

                let mut p = Parser::new();
                assert_eq!(p.parse(SYNC_ACK).state, SYNC_STATE_RECV);
                assert_eq!(p.parse(seq).state, SYNC_STATE_READY);
                for b in &w[..count - 1] {
                    assert_eq!(
                        p.parse(*b),
                        ParseResult {
                            sync: 0,
                            state: SYNC_STATE_READY | SYNC_STATE_RECV,
                            packet: None,
                        }
                    );
                }
                let pr = p.parse(w[count - 1]);
                assert_eq!(
                    pr,
                    ParseResult {
                        sync: 0,
                        state: SYNC_STATE_READY,
                        packet: Some(Packet { seq, code: code & 0x8f, data: pkt.data }),
                    }
                );
                assert_eq!(p.parse(seq.next()).state, SYNC_STATE_READY | SYNC_STATE_RECV);
            }
        }
    }
}

#[test]
fn test_timer_never_stops_before_sync() {
    let mut p = Parser::new();
    for b in 0..=255u8 {
        if b == SYNC_REQ || b == SYNC_ACK {
            continue;
        }
        assert_eq!(p.parse(b).timer_action(), TimerAction::NoChange);
    }
    assert_eq!(p.timeout().timer_action(), TimerAction::Restart);
    assert_eq!(p.parse(SYNC_ACK).timer_action(), TimerAction::Restart);
    assert_eq!(p.parse(0).timer_action(), TimerAction::Restart);
    assert_eq!(p.parse(SYNC_REQ).timer_action(), TimerAction::Restart);
    assert_eq!(p.parse(SYNC_ACK).timer_action(), TimerAction::Restart);
    assert_eq!(p.parse(0x10).timer_action(), TimerAction::NoChange);
    assert_eq!(p.parse(SYNC_REQ).timer_action(), TimerAction::Restart);
    assert_eq!(p.parse(0x10).timer_action(), TimerAction::Stop);
    assert_eq!(p.parse(0x10).timer_action(), TimerAction::Restart);
    assert_eq!(p.parse(0x11).timer_action(), TimerAction::Restart);
    assert_eq!(p.parse(0x00).timer_action(), TimerAction::Stop);
    assert_eq!(p.timeout().timer_action(), TimerAction::Stop);
    assert_eq!(p.parse(0x10).timer_action(), TimerAction::Restart);
}

#[test]
fn test_parse_result_equality() {
    let a = ParseResult { sync: 0, state: 1, packet: Some(Packet::new_with(1, 2)) };
    assert!(a == ParseResult { sync: 0, state: 1, packet: Some(Packet::new_with(1, 2)) });
    assert!(a != ParseResult { sync: 0, state: 1, packet: Some(Packet::new_with(1, 3)) });
    assert!(a != ParseResult { sync: 0, state: 1, packet: None });
    assert!(a != ParseResult { sync: 1, state: 1, packet: Some(Packet::new_with(1, 2)) });
    assert!(a != ParseResult { sync: 0, state: 3, packet: Some(Packet::new_with(1, 2)) });
    let n = ParseResult { sync: 0, state: 1, packet: None };
    assert!(n == ParseResult { sync: 0, state: 1, packet: None });
    assert!(n != a);
}
