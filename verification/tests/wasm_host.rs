use ds_odrl_adapters::wasm_host::{
    guest_memory_bytes, request_len, step, unpack_response, HostAction, HostEvent, HostState, FUEL_PER_CALL,
};

/// Runs a round trip against scripted guest outcomes, returning every
/// action the host took until it finished or the script ran out.
fn run(len: usize, fuel: bool, outcomes: Vec<HostEvent>) -> Vec<HostAction> {
    let mut state = HostState::Start { len, fuel };
    let mut event = HostEvent::Done;
    let mut outcomes = outcomes.into_iter();
    let mut actions = Vec::new();
    loop {
        let (next, action) = step(state, event);
        state = next;
        let finished = matches!(action, HostAction::Finish(_));
        actions.push(action);
        if finished {
            return actions;
        }
        match outcomes.next() {
            Some(e) => event = e,
            None => return actions,
        }
    }
}

fn packed(ptr: i32, len: i32) -> i64 {
    ((ptr as i64) << 32) | (len as u32 as i64)
}

#[test]
fn a_successful_round_trip_frees_both_buffers_before_answering() {
    let actions = run(
        5,
        true,
        vec![
            HostEvent::Done,
            HostEvent::Returned(1024),
            HostEvent::Done,
            HostEvent::Returned(packed(2048, 3)),
            HostEvent::ReadBytes(b"abc".to_vec()),
            HostEvent::Done,
            HostEvent::Done,
            HostEvent::Decoded(Ok("abc".to_string())),
        ],
    );
    assert_eq!(
        actions,
        vec![
            HostAction::SetFuel(FUEL_PER_CALL),
            HostAction::Alloc(5),
            HostAction::Write(1024),
            HostAction::Evaluate(1024, 5),
            HostAction::Read(2048, 3),
            HostAction::Dealloc(1024, 5),
            HostAction::Dealloc(2048, 3),
            HostAction::Decode(b"abc".to_vec()),
            HostAction::Finish(Ok("abc".to_string())),
        ]
    );
}

#[test]
fn without_fuel_the_round_trip_starts_with_alloc() {
    let actions = run(2, false, vec![HostEvent::Failed("out of memory".to_string())]);
    assert_eq!(
        actions,
        vec![HostAction::Alloc(2), HostAction::Finish(Err("alloc trapped: out of memory".to_string()))]
    );
}

#[test]
fn a_trapping_evaluate_still_hands_the_request_buffer_back() {
    let actions = run(
        4,
        false,
        vec![HostEvent::Returned(64), HostEvent::Done, HostEvent::Failed("unreachable".to_string()), HostEvent::Done],
    );
    assert_eq!(
        actions,
        vec![
            HostAction::Alloc(4),
            HostAction::Write(64),
            HostAction::Evaluate(64, 4),
            HostAction::Dealloc(64, 4),
            HostAction::Finish(Err("evaluate trapped: unreachable".to_string())),
        ]
    );
}

#[test]
fn a_failed_read_is_reported_only_after_both_buffers_are_freed() {
    let actions = run(
        1,
        false,
        vec![
            HostEvent::Returned(8),
            HostEvent::Done,
            HostEvent::Returned(packed(16, 2)),
            HostEvent::Failed("out of bounds".to_string()),
            HostEvent::Done,
            HostEvent::Done,
        ],
    );
    assert_eq!(actions[4], HostAction::Dealloc(8, 1));
    assert_eq!(actions[5], HostAction::Dealloc(16, 2));
    assert_eq!(
        actions[6],
        HostAction::Finish(Err("reading the response out of guest memory failed: out of bounds".to_string()))
    );
}

#[test]
fn a_failed_request_dealloc_wins_over_the_response() {
    let actions = run(
        1,
        false,
        vec![
            HostEvent::Returned(8),
            HostEvent::Done,
            HostEvent::Returned(packed(16, 2)),
            HostEvent::ReadBytes(b"ok".to_vec()),
            HostEvent::Failed("bad free".to_string()),
        ],
    );
    assert_eq!(actions.last(), Some(&HostAction::Finish(Err("dealloc(request) trapped: bad free".to_string()))));
}

#[test]
fn non_utf8_output_is_an_error() {
    let actions = run(
        1,
        false,
        vec![
            HostEvent::Returned(8),
            HostEvent::Done,
            HostEvent::Returned(packed(16, 1)),
            HostEvent::ReadBytes(vec![0xff]),
            HostEvent::Done,
            HostEvent::Done,
            HostEvent::Decoded(Err("invalid utf-8 sequence of 1 bytes from index 0".to_string())),
        ],
    );
    assert_eq!(
        actions.last(),
        Some(&HostAction::Finish(Err(
            "engine.wasm returned non-UTF-8 bytes: invalid utf-8 sequence of 1 bytes from index 0".to_string()
        )))
    );
}

#[test]
fn the_packed_result_splits_into_pointer_and_length() {
    assert_eq!(unpack_response(packed(5, 7)), (5, 7));
    assert_eq!(unpack_response(packed(1, i32::MIN)), (1, i32::MIN));
    assert_eq!(unpack_response(-1), (-1, -1));
    assert_eq!(unpack_response(packed(-3, 9)), (-3, 9));
}

#[test]
fn a_negative_response_length_reads_nothing() {
    let actions = run(1, false, vec![HostEvent::Returned(8), HostEvent::Done, HostEvent::Returned(packed(16, -4))]);
    assert_eq!(actions.last(), Some(&HostAction::Read(16, 0)));
}

#[test]
fn a_request_of_two_gibibytes_is_refused_before_any_guest_call() {
    assert_eq!(request_len(0x7FFF_FFFF), Ok(0x7FFF_FFFF));
    assert_eq!(request_len(0x8000_0000), Err("request larger than 2 GiB".to_string()));
    let actions = run(0x8000_0000, true, vec![]);
    assert_eq!(actions, vec![HostAction::Finish(Err("request larger than 2 GiB".to_string()))]);
}

#[test]
fn guest_memory_is_counted_in_sixty_four_kibibyte_pages() {
    assert_eq!(guest_memory_bytes(0), 0);
    assert_eq!(guest_memory_bytes(17), 17 * 65536);
}

#[test]
fn an_outcome_the_round_trip_did_not_ask_for_ends_it() {
    let actions = run(1, true, vec![HostEvent::ReadBytes(vec![])]);
    assert_eq!(
        actions.last(),
        Some(&HostAction::Finish(Err("the guest reported an outcome the round trip was not waiting for".to_string())))
    );
}
