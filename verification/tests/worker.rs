use j2534_bridge::j2534::frame::CANMessage;
use j2534_bridge::j2534::{BLOCK_FILTER, FLOW_CONTROL_FILTER, PASS_FILTER};
use j2534_bridge::protocol::{
    BatchMessage, CanMessage, KlineInitMode, Request, Response, ResponseData,
};
use j2534_bridge::worker::{
    compute_read_limit, drain_buffer, env_value_u32, env_value_u64, env_value_usize, kline_mode_name, map_can_message, map_messages, parse_filter_type,
    plan_worker_request, push_messages, reply_buffered, reply_cleared, reply_message, reply_number, reply_unit,
    wait_slice_ms, RxBufferStats, WorkerConfig, WorkerOp, WorkerStep, DEFAULT_POLL_INTERVAL_MS,
    DEFAULT_PUMP_BATCH_SIZE, DEFAULT_PUMP_MAX_DRAIN_READS, DEFAULT_RX_CAPACITY, MAX_BATCH_SIZE, MAX_DRAIN_READS,
};
use std::collections::VecDeque;

fn make_msg(arb_id: u32) -> CanMessage {
    CanMessage {
        timestamp_us: 0,
        arb_id,
        extended: false,
        data: vec![],
        raw_arb_id: arb_id,
        rx_status: 0,
        data_size: 0,
        protocol_id: 5,
    }
}

fn make_msgs(ids: &[u32]) -> Vec<CanMessage> {
    ids.iter().map(|&id| make_msg(id)).collect()
}

// --- compute_read_limit ---

#[test]
fn compute_read_limit_defaults() {
    assert_eq!(compute_read_limit(256, 64), 256 * 64);
}

#[test]
fn compute_read_limit_small_values() {
    assert_eq!(compute_read_limit(1, 1), 1);
}

#[test]
fn compute_read_limit_clamps_batch_size_to_max() {
    assert_eq!(compute_read_limit(1000, 1), MAX_BATCH_SIZE);
}

#[test]
fn compute_read_limit_clamps_drain_reads_to_max() {
    assert_eq!(compute_read_limit(1, 1000), MAX_DRAIN_READS);
}

#[test]
fn compute_read_limit_clamps_zero_to_one() {
    assert_eq!(compute_read_limit(0, 0), 1);
}

// --- parse_filter_type ---

#[test]
fn parse_filter_type_pass() {
    assert_eq!(parse_filter_type("pass").unwrap(), PASS_FILTER);
}

#[test]
fn parse_filter_type_block() {
    assert_eq!(parse_filter_type("block").unwrap(), BLOCK_FILTER);
}

#[test]
fn parse_filter_type_flow_control() {
    assert_eq!(parse_filter_type("flow_control").unwrap(), FLOW_CONTROL_FILTER);
}

#[test]
fn parse_filter_type_invalid() {
    assert!(parse_filter_type("invalid").is_err());
    assert!(parse_filter_type("").is_err());
}

// --- push_messages ---

#[test]
fn push_messages_empty_input() {
    let mut buffer = VecDeque::new();
    let mut stats = RxBufferStats::default();
    push_messages(&mut buffer, &mut stats, 10, vec![]);
    assert!(buffer.is_empty());
    assert_eq!(stats.dropped_frames, 0);
    assert_eq!(stats.high_water_mark, 0);
}

#[test]
fn push_messages_under_capacity() {
    let mut buffer = VecDeque::new();
    let mut stats = RxBufferStats::default();
    push_messages(&mut buffer, &mut stats, 10, make_msgs(&[0x100, 0x200, 0x300]));
    assert_eq!(buffer.len(), 3);
    assert_eq!(stats.dropped_frames, 0);
    assert_eq!(stats.high_water_mark, 3);
}

#[test]
fn push_messages_at_capacity_drops_oldest() {
    let mut buffer = VecDeque::new();
    let mut stats = RxBufferStats::default();
    push_messages(&mut buffer, &mut stats, 3, make_msgs(&[0x100, 0x200, 0x300]));
    assert_eq!(buffer.len(), 3);
    assert_eq!(stats.dropped_frames, 0);

    push_messages(&mut buffer, &mut stats, 3, make_msgs(&[0x400]));
    assert_eq!(buffer.len(), 3);
    assert_eq!(stats.dropped_frames, 1);
    assert_eq!(buffer[0].arb_id, 0x200);
    assert_eq!(buffer[1].arb_id, 0x300);
    assert_eq!(buffer[2].arb_id, 0x400);
}

#[test]
fn push_messages_overflow_burst() {
    let mut buffer = VecDeque::new();
    let mut stats = RxBufferStats::default();
    push_messages(&mut buffer, &mut stats, 2, make_msgs(&[0x100, 0x200, 0x300, 0x400, 0x500]));
    assert_eq!(buffer.len(), 2);
    assert_eq!(stats.dropped_frames, 3);
    assert_eq!(buffer[0].arb_id, 0x400);
    assert_eq!(buffer[1].arb_id, 0x500);
}

#[test]
fn push_messages_high_water_mark_tracks_peak() {
    let mut buffer = VecDeque::new();
    let mut stats = RxBufferStats::default();
    push_messages(&mut buffer, &mut stats, 100, make_msgs(&[0x100, 0x200, 0x300]));
    assert_eq!(stats.high_water_mark, 3);

    buffer.pop_front();
    push_messages(&mut buffer, &mut stats, 100, make_msgs(&[0x400, 0x500, 0x600]));
    assert_eq!(stats.high_water_mark, 5);
}

#[test]
fn push_messages_capacity_one() {
    let mut buffer = VecDeque::new();
    let mut stats = RxBufferStats::default();
    push_messages(&mut buffer, &mut stats, 1, make_msgs(&[0x100]));
    assert_eq!(buffer.len(), 1);
    assert_eq!(stats.dropped_frames, 0);

    push_messages(&mut buffer, &mut stats, 1, make_msgs(&[0x200]));
    assert_eq!(buffer.len(), 1);
    assert_eq!(stats.dropped_frames, 1);
    assert_eq!(buffer[0].arb_id, 0x200);
}

#[test]
fn push_messages_reports_overflow_notices() {
    let mut buffer = VecDeque::new();
    let mut stats = RxBufferStats::default();
    let notices = push_messages(&mut buffer, &mut stats, 1, make_msgs(&[1, 2, 3, 4, 5, 6]));
    assert_eq!(stats.dropped_frames, 5);
    assert_eq!(notices, vec![1, 2, 4]);
}

// --- drain_buffer ---

#[test]
fn drain_buffer_empty() {
    let mut buffer = VecDeque::new();
    let drained = drain_buffer(&mut buffer, 100);
    assert!(drained.is_empty());
}

#[test]
fn drain_buffer_partial() {
    let mut buffer: VecDeque<CanMessage> = make_msgs(&[0x100, 0x200, 0x300, 0x400, 0x500]).into();
    let drained = drain_buffer(&mut buffer, 3);
    assert_eq!(drained.len(), 3);
    assert_eq!(drained[0].arb_id, 0x100);
    assert_eq!(drained[1].arb_id, 0x200);
    assert_eq!(drained[2].arb_id, 0x300);
    assert_eq!(buffer.len(), 2);
    assert_eq!(buffer[0].arb_id, 0x400);
}

#[test]
fn drain_buffer_all() {
    let mut buffer: VecDeque<CanMessage> = make_msgs(&[0x100, 0x200]).into();
    let drained = drain_buffer(&mut buffer, 100);
    assert_eq!(drained.len(), 2);
    assert!(buffer.is_empty());
}

#[test]
fn drain_buffer_zero_limit() {
    let mut buffer: VecDeque<CanMessage> = make_msgs(&[0x100]).into();
    let drained = drain_buffer(&mut buffer, 0);
    assert!(drained.is_empty());
    assert_eq!(buffer.len(), 1);
}

#[test]
fn push_drain_cycle() {
    let mut buffer = VecDeque::new();
    let mut stats = RxBufferStats::default();
    let capacity = 64;

    for i in 0..10u32 {
        let batch: Vec<u32> = (i * 10..i * 10 + 10).collect();
        push_messages(&mut buffer, &mut stats, capacity, make_msgs(&batch));
    }
    assert_eq!(buffer.len(), 64);
    assert_eq!(stats.dropped_frames, 100 - 64);

    let drained = drain_buffer(&mut buffer, 64);
    assert_eq!(drained.len(), 64);
    assert!(buffer.is_empty());
    assert_eq!(drained[0].arb_id, 36);
}

// --- WorkerConfig ---

#[test]
fn worker_config_defaults() {
    let config = WorkerConfig::from_env(env_value_usize(None), env_value_u64(None), env_value_u32(None), env_value_u32(None));
    assert_eq!(config.rx_capacity, DEFAULT_RX_CAPACITY);
    assert_eq!(config.poll_interval_ms, DEFAULT_POLL_INTERVAL_MS);
    assert_eq!(config.pump_batch_size, DEFAULT_PUMP_BATCH_SIZE);
    assert_eq!(config.pump_max_drain_reads, DEFAULT_PUMP_MAX_DRAIN_READS);
}

#[test]
fn worker_config_clamping() {
    let config = WorkerConfig::from_env(
        env_value_usize(Some("0")),
        env_value_u64(Some("0")),
        env_value_u32(Some("9999")),
        env_value_u32(Some("9999")),
    );
    assert_eq!(config.rx_capacity, 1);
    assert_eq!(config.poll_interval_ms, 1);
    assert_eq!(config.pump_batch_size, MAX_BATCH_SIZE as u32);
    assert_eq!(config.pump_max_drain_reads, MAX_DRAIN_READS as u32);
}

// --- map_can_message ---

#[test]
fn map_can_message_preserves_fields() {
    let j2534_msg = CANMessage {
        timestamp_us: 999999,
        arb_id: 0x18DA00FF,
        extended: true,
        data: vec![0x10, 0x20, 0x30],
        raw_arb_id: 0x98DA00FF,
        rx_status: 0x100,
        data_size: 7,
        protocol_id: 3,
    };
    let mapped = map_can_message(j2534_msg);
    assert_eq!(mapped.timestamp_us, 999999);
    assert_eq!(mapped.arb_id, 0x18DA00FF);
    assert!(mapped.extended);
    assert_eq!(mapped.data, vec![0x10, 0x20, 0x30]);
    assert_eq!(mapped.raw_arb_id, 0x98DA00FF);
    assert_eq!(mapped.rx_status, 0x100);
    assert_eq!(mapped.data_size, 7);
    assert_eq!(mapped.protocol_id, 3);
}

fn j2534_msg(timestamp_us: u64, arb_id: u32) -> CANMessage {
    CANMessage {
        timestamp_us,
        arb_id,
        extended: false,
        data: vec![],
        raw_arb_id: arb_id,
        rx_status: 0,
        data_size: 0,
        protocol_id: 5,
    }
}

#[test]
fn map_messages_preserves_order() {
    let msgs = vec![j2534_msg(1, 0x100), j2534_msg(2, 0x200)];
    let mapped = map_messages(msgs);
    assert_eq!(mapped.len(), 2);
    assert_eq!(mapped[0].arb_id, 0x100);
    assert_eq!(mapped[1].arb_id, 0x200);
}

// --- request planning and replies ---

fn reply_error(step: &WorkerStep) -> (i32, String) {
    match step {
        WorkerStep::Reply(Response::Error { code, message }) => (*code, message.clone()),
        other => panic!("expected an error reply, got {:?}", other),
    }
}

#[test]
fn plan_control_requests_are_refused_by_worker() {
    let step = plan_worker_request(Request::EnumerateDevices);
    assert_eq!(reply_error(&step), (-1, "Request must be handled by the bridge control thread".to_string()));
    let step = plan_worker_request(Request::Open {
        dll_path: "x.dll".to_string(),
        protocol_id: 5,
        baud_rate: 500_000,
        connect_flags: 0,
    });
    assert_eq!(reply_error(&step).1, "Request must be handled by the bridge control thread");
}

#[test]
fn plan_close_and_shutdown_stop_the_worker() {
    for request in [Request::Close, Request::Shutdown] {
        match plan_worker_request(request) {
            WorkerStep::Finish(Response::Success { data: ResponseData::Empty }) => {}
            other => panic!("unexpected {:?}", other),
        }
    }
}

#[test]
fn plan_read_messages_uses_read_limit() {
    match plan_worker_request(Request::ReadMessages { timeout_ms: 25, batch_size: 1000, max_drain_reads: 0 }) {
        WorkerStep::Run(WorkerOp::ReadBuffered { timeout_ms, max_messages }) => {
            assert_eq!(timeout_ms, 25);
            assert_eq!(max_messages, 256);
        }
        other => panic!("unexpected {:?}", other),
    }
}

#[test]
fn plan_kline_init_defaults_cc_timeout() {
    let step = plan_worker_request(Request::KlineInit {
        init_mode: KlineInitMode::Auto,
        fast_init_data: None,
        five_baud_address: Some(vec![0x33]),
        cc_timeout_ms: None,
    });
    match step {
        WorkerStep::Run(WorkerOp::KlineInit { mode, fast_init_data, five_baud_address, cc_timeout_ms }) => {
            assert_eq!(mode, "auto");
            assert_eq!(fast_init_data, None);
            assert_eq!(five_baud_address, Some(vec![0x33]));
            assert_eq!(cc_timeout_ms, 300);
        }
        other => panic!("unexpected {:?}", other),
    }
    assert_eq!(kline_mode_name(KlineInitMode::Fast), "fast");
    assert_eq!(kline_mode_name(KlineInitMode::Slow), "slow");
}

#[test]
fn plan_add_filter_parses_type() {
    match plan_worker_request(Request::AddFilter {
        filter_type: "block".to_string(),
        mask: vec![0xFF],
        pattern: vec![0x01],
        extended: true,
    }) {
        WorkerStep::Run(WorkerOp::AddFilter { filter_type, mask, pattern, extended }) => {
            assert_eq!(filter_type, BLOCK_FILTER);
            assert_eq!(mask, vec![0xFF]);
            assert_eq!(pattern, vec![0x01]);
            assert!(extended);
        }
        other => panic!("unexpected {:?}", other),
    }
    let step = plan_worker_request(Request::AddFilterRaw {
        filter_type: "bogus".to_string(),
        mask: vec![],
        pattern: vec![],
        extended: false,
    });
    assert_eq!(reply_error(&step), (-1, "Invalid filter type".to_string()));
}

#[test]
fn plan_send_batch_keeps_messages() {
    let step = plan_worker_request(Request::SendMessagesBatch {
        messages: vec![BatchMessage { arb_id: 0x7E0, data: vec![1, 2], extended: false }],
    });
    match step {
        WorkerStep::Run(WorkerOp::SendBatch { messages }) => {
            assert_eq!(messages.len(), 1);
            assert_eq!(messages[0].arb_id, 0x7E0);
            assert_eq!(messages[0].data, vec![1, 2]);
        }
        other => panic!("unexpected {:?}", other),
    }
}

#[test]
fn replies_map_outcomes() {
    match reply_number(Ok(7)) {
        Response::Success { data: ResponseData::Number(7) } => {}
        other => panic!("unexpected {:?}", other),
    }
    match reply_unit(Err("ERR_X".to_string())) {
        Response::Error { code: -1, message } => assert_eq!(message, "ERR_X"),
        other => panic!("unexpected {:?}", other),
    }
    match reply_message(Ok(j2534_msg(5, 0x7E8))) {
        Response::Success { data: ResponseData::Messages(ms) } => {
            assert_eq!(ms.len(), 1);
            assert_eq!(ms[0].arb_id, 0x7E8);
            assert_eq!(ms[0].timestamp_us, 5);
        }
        other => panic!("unexpected {:?}", other),
    }
}

#[test]
fn reply_cleared_empties_buffer_only_on_success() {
    let mut buffer: VecDeque<CanMessage> = make_msgs(&[1, 2]).into();
    let r = reply_cleared(Err("ERR_J2534_IOCTL_FAILED".to_string()), &mut buffer);
    assert!(matches!(r, Response::Error { code: -1, .. }));
    assert_eq!(buffer.len(), 2);
    let r = reply_cleared(Ok(()), &mut buffer);
    assert!(matches!(r, Response::Success { data: ResponseData::Empty }));
    assert!(buffer.is_empty());
}

#[test]
fn reply_buffered_takes_oldest_first() {
    let mut buffer: VecDeque<CanMessage> = make_msgs(&[1, 2, 3]).into();
    match reply_buffered(&mut buffer, 2) {
        Response::Success { data: ResponseData::Messages(ms) } => {
            assert_eq!(ms.iter().map(|m| m.arb_id).collect::<Vec<_>>(), vec![1, 2]);
        }
        other => panic!("unexpected {:?}", other),
    }
    assert_eq!(buffer.len(), 1);
    assert_eq!(buffer[0].arb_id, 3);
}

#[test]
fn wait_slice_is_bounded_by_poll_interval() {
    assert_eq!(wait_slice_ms(100, 2), 2);
    assert_eq!(wait_slice_ms(1, 2), 1);
    assert_eq!(wait_slice_ms(0, 2), 1);
}
