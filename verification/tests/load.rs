use chat_relay::load::client::{ClientAction, ClientEvent, ClientPhase, LoadClient};
use chat_relay::load::config::{TestConfig, TestStep};
use chat_relay::load::histogram::{Latencies, MergeError};
use chat_relay::load::metrics::{
    GlobalMetrics, LocalMetrics, LATENCY_DIGITS, LONGEST_LATENCY_MICROS,
};
use chat_relay::load::pause::think_time;
use chat_relay::load::report::{report_directory, report_path, report_path_for, ReportError};
use chat_relay::load::text::{client_message, client_name, decimal, is_refusal, server_address};
use rand::rngs::SmallRng;
use rand::SeedableRng;

fn plan(duration_secs: u64, shortest: u64, longest: u64) -> TestStep {
    TestStep {
        name: "warm-up".to_string(),
        concurrency: 3,
        duration_secs,
        think_time_ms: [shortest, longest],
    }
}

fn fresh_client(client_id: usize, duration_secs: u64) -> LoadClient {
    let metrics = LocalMetrics::new();
    LoadClient::new(client_id, plan(duration_secs, 10, 20), metrics)
}

fn line(text: &str) -> ClientEvent {
    ClientEvent::Line { text: text.to_string() }
}

fn write(text: &str) -> ClientAction {
    ClientAction::Write { text: text.to_string() }
}

/// Takes a client through a login that succeeds.
fn logged_in(client_id: usize, duration_secs: u64) -> LoadClient {
    let mut client = fresh_client(client_id, duration_secs);
    assert!(client.step(ClientEvent::Connected).is_empty());
    assert_eq!(client.step(line("Enter username: \n")).len(), 1);
    assert!(client.step(ClientEvent::Written).is_empty());
    assert!(client.step(line("Welcome!\n")).is_empty());
    assert_eq!(client.phase(), ClientPhase::Ready);
    client
}

fn counts(client: &LoadClient) -> (u64, u64, u64, u64, u64) {
    let metrics = client.metrics();
    (
        metrics.messages_sent,
        metrics.messages_received,
        metrics.login_failures,
        metrics.send_errors,
        held(&metrics.latencies),
    )
}

/// How many latencies a histogram holds.
fn held(latencies: &Latencies) -> u64 {
    latencies.slots().iter().map(|slot| slot.1).sum()
}

/// The slots that a histogram of the library's own kind has counted in
/// once it has been given `latencies`, as the histogram crate itself says.
fn expected_slots(latencies: &[u64]) -> Vec<(u64, u64)> {
    let mut reference = hdrhistogram::Histogram::<u64>::new(LATENCY_DIGITS).unwrap();
    for micros in latencies {
        reference.record(*micros).unwrap();
    }
    reference.iter_recorded().map(|slot| (slot.value_iterated_to(), slot.count_at_value())).collect()
}

/// What a client has counted that sent one message for each of `latencies`
/// and had it answered after that many microseconds.
fn answered(client_id: usize, latencies: &[u64]) -> LocalMetrics {
    let mut client = logged_in(client_id, 1_000_000);
    for micros in latencies {
        client.step(ClientEvent::Clock { elapsed_secs: 0 });
        client.step(ClientEvent::Woke);
        client.step(ClientEvent::Written);
        client.step(ClientEvent::Echo { latency_micros: *micros });
    }
    client.into_metrics()
}

#[test]
fn numbers_are_written_in_decimal() {
    assert_eq!(decimal(0), "0");
    assert_eq!(decimal(7), "7");
    assert_eq!(decimal(10), "10");
    assert_eq!(decimal(42), "42");
    assert_eq!(decimal(1005), "1005");
    assert_eq!(decimal(65535), "65535");
    assert_eq!(decimal(u64::MAX), "18446744073709551615");
    for n in [1u64, 9, 99, 100, 101, 12345678901234] {
        assert_eq!(decimal(n), n.to_string());
    }
}

#[test]
fn server_address_joins_host_and_port() {
    assert_eq!(server_address("127.0.0.1", 8080), "127.0.0.1:8080");
    assert_eq!(server_address("chat.example", 0), "chat.example:0");
    assert_eq!(server_address("", 65535), ":65535");
}

#[test]
fn client_texts_carry_the_client_number() {
    assert_eq!(client_name(0), "TestUser-0");
    assert_eq!(client_name(12), "TestUser-12");
    assert_eq!(client_message(0), "hello from 0");
    assert_eq!(client_message(3456), "hello from 3456");
}

#[test]
fn refusal_is_told_by_its_marker() {
    assert!(is_refusal("\u{7528}\u{6237}\u{540d}\u{5df2}\u{88ab}\u{5360}\u{7528}\n"));
    assert!(is_refusal("\u{5df2}\u{88ab}\u{5360}\u{7528}"));
    assert!(!is_refusal("\u{5df2}\u{88ab}\u{5360}"));
    assert!(!is_refusal("Username 'TestUser-1' is taken.\n"));
    assert!(!is_refusal("Welcome, TestUser-1!\n"));
    assert!(!is_refusal(""));
}

#[test]
fn pauses_stay_within_the_bounds_of_the_step() {
    let mut rng = SmallRng::seed_from_u64(17);
    let step = plan(1, 10, 20);
    let mut seen_low = false;
    let mut seen_high = false;
    for _ in 0..2000 {
        let millis = think_time(&step, &mut rng);
        assert!((10..=20).contains(&millis));
        seen_low |= millis == 10;
        seen_high |= millis == 20;
    }
    assert!(seen_low && seen_high, "both ends of the range are drawn");

    let fixed = plan(1, 7, 7);
    for _ in 0..50 {
        assert_eq!(think_time(&fixed, &mut rng), 7);
    }
    let wide = plan(1, 0, u64::MAX);
    let _ = think_time(&wide, &mut rng);
}

#[test]
fn client_runs_one_round_and_stops_when_time_is_up() {
    let mut client = fresh_client(4, 5);
    assert_eq!(client.phase(), ClientPhase::Connecting);
    assert_eq!(client.step_plan().duration_secs, 5);

    assert!(client.step(ClientEvent::Connected).is_empty());
    assert_eq!(client.phase(), ClientPhase::AwaitingPrompt);

    assert_eq!(client.step(line("Enter username: \n")), vec![write("TestUser-4\n")]);
    assert_eq!(client.phase(), ClientPhase::SendingName);

    assert!(client.step(ClientEvent::Written).is_empty());
    assert_eq!(client.phase(), ClientPhase::AwaitingLoginReply);

    assert!(client.step(line("Welcome, TestUser-4!\n")).is_empty());
    assert_eq!(client.phase(), ClientPhase::Ready);

    assert_eq!(client.step(ClientEvent::Clock { elapsed_secs: 0 }), vec![ClientAction::Pause]);
    assert_eq!(client.phase(), ClientPhase::Pausing);

    assert_eq!(client.step(ClientEvent::Woke), vec![write("hello from 4\n")]);
    assert_eq!(client.phase(), ClientPhase::Sending);

    assert!(client.step(ClientEvent::Written).is_empty());
    assert_eq!(client.phase(), ClientPhase::AwaitingEcho);
    assert_eq!(counts(&client), (1, 0, 0, 0, 0));

    assert!(client.step(ClientEvent::Echo { latency_micros: 1500 }).is_empty());
    assert_eq!(client.phase(), ClientPhase::Ready);
    assert_eq!(counts(&client), (1, 1, 0, 0, 1));
    assert_eq!(client.metrics().latencies.slots(), vec![(1500, 1)]);

    assert_eq!(client.step(ClientEvent::Clock { elapsed_secs: 4 }), vec![ClientAction::Pause]);
    assert!(!client.step(ClientEvent::Woke).is_empty());
    assert!(client.step(ClientEvent::Written).is_empty());
    assert!(client.step(ClientEvent::Echo { latency_micros: 90 }).is_empty());
    assert_eq!(counts(&client), (2, 2, 0, 0, 2));
    assert_eq!(client.metrics().latencies.slots(), vec![(90, 1), (1500, 1)]);

    assert!(client.step(ClientEvent::Clock { elapsed_secs: 5 }).is_empty());
    assert_eq!(client.phase(), ClientPhase::Finished);

    let metrics = client.into_metrics();
    assert_eq!(metrics.messages_sent, 2);
    assert_eq!(metrics.messages_received, 2);
    assert_eq!(held(&metrics.latencies), 2);
}

#[test]
fn client_with_no_time_at_all_sends_nothing() {
    let mut client = logged_in(1, 0);
    assert!(client.step(ClientEvent::Clock { elapsed_secs: 0 }).is_empty());
    assert_eq!(client.phase(), ClientPhase::Finished);
    assert_eq!(counts(&client), (0, 0, 0, 0, 0));
}

#[test]
fn prompt_that_never_came_does_not_stop_the_login() {
    let mut client = fresh_client(8, 5);
    client.step(ClientEvent::Connected);
    assert_eq!(client.step(ClientEvent::EndOfStream), vec![write("TestUser-8\n")]);
    assert_eq!(client.phase(), ClientPhase::SendingName);
    assert_eq!(counts(&client), (0, 0, 0, 0, 0));
}

#[test]
fn every_failed_login_is_counted_once() {
    let mut client = fresh_client(1, 5);
    assert!(client.step(ClientEvent::ConnectFailed).is_empty());
    assert_eq!(client.phase(), ClientPhase::Finished);
    assert_eq!(counts(&client), (0, 0, 1, 0, 0));

    let mut client = fresh_client(1, 5);
    client.step(ClientEvent::Connected);
    assert!(client.step(ClientEvent::ReadFailed).is_empty());
    assert_eq!(client.phase(), ClientPhase::Finished);
    assert_eq!(counts(&client), (0, 0, 1, 0, 0));

    let mut client = fresh_client(1, 5);
    client.step(ClientEvent::Connected);
    client.step(line("Enter username: \n"));
    assert!(client.step(ClientEvent::WriteFailed).is_empty());
    assert_eq!(client.phase(), ClientPhase::Finished);
    assert_eq!(counts(&client), (0, 0, 1, 0, 0));

    for answer in [
        line("\u{7528}\u{6237}\u{540d}\u{5df2}\u{88ab}\u{5360}\u{7528}\n"),
        ClientEvent::EndOfStream,
        ClientEvent::ReadFailed,
    ] {
        let mut client = fresh_client(1, 5);
        client.step(ClientEvent::Connected);
        client.step(line("Enter username: \n"));
        client.step(ClientEvent::Written);
        assert!(client.step(answer).is_empty());
        assert_eq!(client.phase(), ClientPhase::Finished);
        assert_eq!(counts(&client), (0, 0, 1, 0, 0));
        // Nothing more is counted once the client is finished.
        client.step(ClientEvent::ConnectFailed);
        client.step(ClientEvent::WriteFailed);
        assert_eq!(counts(&client), (0, 0, 1, 0, 0));
    }
}

#[test]
fn failed_send_is_counted_and_ends_the_client() {
    let mut client = logged_in(2, 5);
    client.step(ClientEvent::Clock { elapsed_secs: 1 });
    client.step(ClientEvent::Woke);
    assert!(client.step(ClientEvent::WriteFailed).is_empty());
    assert_eq!(client.phase(), ClientPhase::Finished);
    assert_eq!(counts(&client), (0, 0, 0, 1, 0));
}

#[test]
fn lost_reply_ends_the_client_with_one_message_unanswered() {
    for event in [ClientEvent::EndOfStream, ClientEvent::ReadFailed] {
        let mut client = logged_in(2, 5);
        client.step(ClientEvent::Clock { elapsed_secs: 1 });
        client.step(ClientEvent::Woke);
        client.step(ClientEvent::Written);
        assert!(client.step(event).is_empty());
        assert_eq!(client.phase(), ClientPhase::Finished);
        assert_eq!(counts(&client), (1, 0, 0, 0, 0));
    }
}

#[test]
fn events_out_of_turn_change_nothing() {
    let mut client = fresh_client(3, 5);
    for event in [
        line("x"),
        ClientEvent::EndOfStream,
        ClientEvent::ReadFailed,
        ClientEvent::Written,
        ClientEvent::WriteFailed,
        ClientEvent::Clock { elapsed_secs: 9 },
        ClientEvent::Woke,
        ClientEvent::Echo { latency_micros: 1 },
    ] {
        assert!(client.step(event).is_empty());
        assert_eq!(client.phase(), ClientPhase::Connecting);
    }
    assert_eq!(counts(&client), (0, 0, 0, 0, 0));

    let mut client = logged_in(3, 5);
    for event in [
        ClientEvent::Connected,
        ClientEvent::ConnectFailed,
        line("x"),
        ClientEvent::EndOfStream,
        ClientEvent::ReadFailed,
        ClientEvent::Written,
        ClientEvent::WriteFailed,
        ClientEvent::Woke,
        ClientEvent::Echo { latency_micros: 1 },
    ] {
        assert!(client.step(event).is_empty());
        assert_eq!(client.phase(), ClientPhase::Ready);
    }
    assert_eq!(counts(&client), (0, 0, 0, 0, 0));
}

#[test]
fn replies_never_outnumber_messages() {
    let mut rng = SmallRng::seed_from_u64(99);
    for run in 0..200u64 {
        let mut client = fresh_client(run as usize, 3);
        for _ in 0..60 {
            let pick = think_time(&plan(1, 0, 10), &mut rng);
            let event = match pick {
                0 => ClientEvent::Connected,
                1 => line("hello\n"),
                2 => ClientEvent::Written,
                3 => ClientEvent::Clock { elapsed_secs: run % 4 },
                4 => ClientEvent::Woke,
                5 => ClientEvent::Echo { latency_micros: 10 + run },
                6 => ClientEvent::EndOfStream,
                7 => ClientEvent::ReadFailed,
                8 => ClientEvent::WriteFailed,
                9 => ClientEvent::ConnectFailed,
                _ => ClientEvent::Clock { elapsed_secs: 0 },
            };
            client.step(event);
            let (sent, received, login_failures, send_errors, samples) = counts(&client);
            assert!(received <= sent && sent <= received + 1);
            assert!(login_failures + send_errors <= 1);
            assert_eq!(samples, received);
            if login_failures + send_errors == 1 {
                assert_eq!(client.phase(), ClientPhase::Finished);
            }
            if login_failures == 1 {
                assert_eq!(sent, 0);
            }
        }
    }
}

#[test]
fn report_lands_in_the_reports_directory() {
    assert_eq!(report_directory(), "reports");
    assert_eq!(report_path("2024-01-02_03-04-05"), "reports/run_2024-01-02_03-04-05.json");
    assert_eq!(report_path(""), "reports/run_.json");
}

#[test]
fn report_is_named_after_the_time_of_the_run() {
    assert_eq!(
        report_path_for("2024-01-02T03:04:05+00:00").unwrap(),
        "reports/run_2024-01-02_03-04-05.json"
    );
    assert_eq!(
        report_path_for("2024-01-02T03:04:05Z").unwrap(),
        "reports/run_2024-01-02_03-04-05.json"
    );
    // The time is written in the offset it was given in, fractions dropped.
    assert_eq!(
        report_path_for("1999-12-31T23:59:59.987654321+08:00").unwrap(),
        "reports/run_1999-12-31_23-59-59.json"
    );
}

#[test]
fn report_without_a_proper_timestamp_is_refused() {
    for bad in ["", "yesterday", "2024-01-02", "2024-01-02 03:04:05", "2024-13-02T03:04:05Z"] {
        match report_path_for(bad) {
            Err(ReportError::BadTimestamp { cause }) => {
                assert_eq!(cause, chrono::DateTime::parse_from_rfc3339(bad).unwrap_err());
            }
            Err(other) => panic!("{bad:?} gave {other:?}"),
            Ok(path) => panic!("{bad:?} gave {path}"),
        }
    }
}

#[test]
fn plan_is_plain_data() {
    let config = TestConfig {
        host: "127.0.0.1".to_string(),
        port: 8080,
        steps: vec![plan(10, 100, 200), plan(20, 0, 0)],
    };
    let copy = config.clone();
    assert_eq!(copy, config);
    assert_eq!(copy.steps[0].think_time_ms, [100, 200]);
    assert_eq!(copy.steps[1].concurrency, 3);
    assert_eq!(server_address(&config.host, config.port), "127.0.0.1:8080");
}

#[test]
fn histogram_is_built_for_up_to_five_digits_and_refused_beyond() {
    for digits in 0u8..=255 {
        let built = hdrhistogram::Histogram::<u64>::new(digits);
        assert_eq!(built.is_ok(), digits <= 5, "growing, {digits} digits");
        if let Ok(histogram) = built {
            assert!(histogram.is_empty());
        }
    }
    for digits in [0u8, 1, 2, 3, 4, 5, 6, 7, 100, 255] {
        for high in [0u64, 1, 2, 3, 1000, 30_000_000, 1 << 40, 1 << 63, u64::MAX] {
            let built = hdrhistogram::Histogram::<u64>::new_with_bounds(1, high, digits);
            assert_eq!(built.is_ok(), high >= 2 && digits <= 5, "up to {high}, {digits} digits");
            if let Ok(histogram) = built {
                assert!(histogram.is_empty());
            }
        }
    }
}

#[test]
fn fresh_metrics_count_nothing() {
    for local in [LocalMetrics::new(), LocalMetrics::default()] {
        assert_eq!(local.messages_sent, 0);
        assert_eq!(local.messages_received, 0);
        assert_eq!(local.login_failures, 0);
        assert_eq!(local.send_errors, 0);
        assert!(local.latencies.slots().is_empty());
    }

    let global = GlobalMetrics::new();
    assert_eq!(global.total_sent(), 0);
    assert_eq!(global.total_received(), 0);
    assert_eq!(global.total_login_failures(), 0);
    assert_eq!(global.total_send_errors(), 0);
    assert!(global.combined_latencies().slots().is_empty());
    assert_eq!(LONGEST_LATENCY_MICROS, 30_000_000);
    assert_eq!(LATENCY_DIGITS, 3);
}

#[test]
fn latencies_are_counted_by_slot_not_kept_by_value() {
    // Up to 2047 microseconds every value has a slot of its own.
    assert_eq!(answered(1, &[0, 1, 1, 2047]).latencies.slots(), vec![(0, 1), (1, 2), (2047, 1)]);
    // From 2048 on two values share a slot, from 4096 on four, and so on.
    assert_eq!(answered(1, &[2048]).latencies.slots(), vec![(2049, 1)]);
    assert_eq!(answered(1, &[2049]).latencies.slots(), vec![(2049, 1)]);
    assert_eq!(answered(1, &[2048, 2049, 2050]).latencies.slots(), vec![(2049, 2), (2051, 1)]);
    assert_eq!(answered(1, &[4096, 4099, 4100]).latencies.slots(), vec![(4099, 2), (4103, 1)]);

    for latencies in [
        vec![],
        vec![7],
        vec![100, 200, 300, 400],
        vec![1_000, 25_000_000, 25_000_001, 29_999_999, 30_000_000],
        vec![u64::MAX, 1 << 63, (1 << 63) - 1, 1 << 40, 0],
        (0..5000u64).map(|n| n * n).collect(),
    ] {
        let counted = answered(2, &latencies);
        assert_eq!(counted.latencies.slots(), expected_slots(&latencies));
        assert_eq!(held(&counted.latencies), latencies.len() as u64);
        assert_eq!(counted.messages_received, latencies.len() as u64);
        for (value, count) in counted.latencies.slots() {
            assert!(count > 0);
            assert!(latencies.iter().any(|micros| *micros <= value));
        }
    }
}

#[test]
fn merge_adds_counts_and_latencies() {
    let mut global = GlobalMetrics::new();

    let mut first = answered(1, &[100, 200, 300, 400]);
    first.messages_sent = 5;
    first.send_errors = 1;
    let mut second = LocalMetrics::new();
    second.login_failures = 1;
    let third = answered(3, &[1_000, 25_000_000]);

    global.merge(first);
    global.merge(second);
    global.merge(third);

    assert_eq!(global.total_sent(), 7);
    assert_eq!(global.total_received(), 6);
    assert_eq!(global.total_login_failures(), 1);
    assert_eq!(global.total_send_errors(), 1);
    assert_eq!(
        global.combined_latencies().slots(),
        expected_slots(&[100, 200, 300, 400, 1_000, 25_000_000])
    );
    assert_eq!(held(global.combined_latencies()), 6);
}

#[test]
fn merge_adds_slot_for_slot() {
    let mut global = GlobalMetrics::new();
    global.merge(answered(1, &[2048, 5000, 5000]));
    global.merge(answered(2, &[2049, 5001, 9]));
    assert_eq!(global.combined_latencies().slots(), vec![(9, 1), (2049, 2), (5003, 3)]);
    assert_eq!(global.total_sent(), 6);
    assert_eq!(global.total_received(), 6);
}

#[test]
fn merges_give_the_same_totals_in_either_order() {
    let clients: Vec<Vec<u64>> =
        vec![vec![10, 20, 30], vec![], vec![29_000_000, 5], vec![20, 20, 20, 4096]];
    let mut forwards = GlobalMetrics::new();
    for (id, latencies) in clients.iter().enumerate() {
        assert_eq!(forwards.try_merge(answered(id, latencies)), Ok(()));
    }
    let mut backwards = GlobalMetrics::new();
    for (id, latencies) in clients.iter().enumerate().rev() {
        assert_eq!(backwards.try_merge(answered(id, latencies)), Ok(()));
    }
    assert_eq!(forwards.total_sent(), backwards.total_sent());
    assert_eq!(forwards.total_received(), backwards.total_received());
    assert_eq!(forwards.total_sent(), 9);
    assert_eq!(forwards.combined_latencies().slots(), backwards.combined_latencies().slots());

    // A client that is refused is refused wherever it stands in the order.
    let mut early = GlobalMetrics::new();
    assert!(early.try_merge(answered(1, &[120_000_000])).is_err());
    assert_eq!(early.try_merge(answered(2, &[7])), Ok(()));
    let mut late = GlobalMetrics::new();
    assert_eq!(late.try_merge(answered(2, &[7])), Ok(()));
    assert!(late.try_merge(answered(1, &[120_000_000])).is_err());
    assert_eq!(early.total_sent(), late.total_sent());
    assert_eq!(early.combined_latencies().slots(), late.combined_latencies().slots());
}

#[test]
fn merge_that_cannot_take_the_latencies_takes_nothing() {
    let mut global = GlobalMetrics::new();
    let mut good = answered(1, &[500]);
    good.messages_sent = 3;
    good.messages_received = 3;
    assert_eq!(global.try_merge(good), Ok(()));

    let mut slow = answered(2, &[120_000_000]);
    slow.messages_sent = 9;
    slow.messages_received = 9;
    slow.login_failures = 1;
    slow.send_errors = 1;
    assert_eq!(global.try_merge(slow), Err(MergeError::ValueExceedsRange));

    assert_eq!(global.total_sent(), 3);
    assert_eq!(global.total_received(), 3);
    assert_eq!(global.total_login_failures(), 0);
    assert_eq!(global.total_send_errors(), 0);
    assert_eq!(global.combined_latencies().slots(), vec![(500, 1)]);
}

#[test]
fn latencies_up_to_thirty_seconds_are_always_taken() {
    for micros in [0u64, 1, 2047, 2048, 1 << 20, 29_999_999, LONGEST_LATENCY_MICROS] {
        let mut global = GlobalMetrics::new();
        assert_eq!(global.try_merge(answered(1, &[micros, micros])), Ok(()), "{micros}");
        assert_eq!(global.combined_latencies().slots(), expected_slots(&[micros, micros]));
        assert_eq!(global.total_received(), 2);
    }
    // The histogram has room for a little more than it was made for, and
    // for nothing beyond that.
    let mut global = GlobalMetrics::new();
    assert_eq!(global.try_merge(answered(1, &[33_554_431])), Ok(()));
    assert_eq!(
        global.try_merge(answered(1, &[33_554_432])),
        Err(MergeError::ValueExceedsRange)
    );
    assert_eq!(global.total_received(), 1);
}

#[test]
fn latency_of_any_size_is_counted_by_a_client() {
    for micros in [0u64, 1, 1 << 40, (1 << 63) - 1, 1 << 63, u64::MAX] {
        let mut client = logged_in(5, 9);
        client.step(ClientEvent::Clock { elapsed_secs: 0 });
        client.step(ClientEvent::Woke);
        client.step(ClientEvent::Written);
        assert!(client.step(ClientEvent::Echo { latency_micros: micros }).is_empty());
        assert_eq!(client.phase(), ClientPhase::Ready);
        let (sent, received, _, _, samples) = counts(&client);
        assert_eq!((sent, received), (1, 1));
        assert_eq!(samples, 1);
        assert_eq!(client.metrics().latencies.slots(), expected_slots(&[micros]));

        let mut global = GlobalMetrics::new();
        let merged = global.try_merge(client.into_metrics());
        if micros <= LONGEST_LATENCY_MICROS {
            assert_eq!(merged, Ok(()));
            assert_eq!(global.total_sent(), 1);
            assert_eq!(held(global.combined_latencies()), 1);
        } else {
            assert_eq!(merged, Err(MergeError::ValueExceedsRange));
            assert_eq!(global.total_sent(), 0);
            assert_eq!(held(global.combined_latencies()), 0);
        }
    }
}

#[test]
fn client_that_took_no_latency_is_always_added() {
    let mut global = GlobalMetrics::new();
    global.merge(answered(1, &[700, 29_000_000]));

    let mut refused = LocalMetrics::new();
    refused.login_failures = 1;
    assert_eq!(global.try_merge(refused), Ok(()));

    let mut cut_off = LocalMetrics::new();
    cut_off.messages_sent = 1;
    cut_off.send_errors = 1;
    assert_eq!(global.try_merge(cut_off), Ok(()));

    assert_eq!(global.try_merge(LocalMetrics::new()), Ok(()));

    assert_eq!(global.total_sent(), 3);
    assert_eq!(global.total_received(), 2);
    assert_eq!(global.total_login_failures(), 1);
    assert_eq!(global.total_send_errors(), 1);
    assert_eq!(held(global.combined_latencies()), 2);
}

#[test]
fn counts_are_added_only_where_the_latencies_were() {
    let mut counted = answered(1, &[123]);
    counted.messages_sent = 5;
    counted.messages_received = 4;
    counted.login_failures = 1;
    counted.send_errors = 2;

    let mut global = GlobalMetrics::new();
    for error in [MergeError::ValueExceedsRange, MergeError::ResizeFailed] {
        assert_eq!(global.add_counts(&counted, Err(error)), Err(error));
        assert_eq!(global.total_sent(), 0);
        assert_eq!(global.total_received(), 0);
        assert_eq!(global.total_login_failures(), 0);
        assert_eq!(global.total_send_errors(), 0);
    }

    assert_eq!(global.add_counts(&counted, Ok(())), Ok(()));
    assert_eq!(global.add_counts(&counted, Ok(())), Ok(()));
    assert_eq!(global.total_sent(), 10);
    assert_eq!(global.total_received(), 8);
    assert_eq!(global.total_login_failures(), 2);
    assert_eq!(global.total_send_errors(), 4);
    // The histogram is the business of `merge`, not of the counts.
    assert!(global.combined_latencies().slots().is_empty());
    assert_eq!(counted.latencies.slots(), vec![(123, 1)]);
}

/// The slots that a histogram has counted in, as the histogram crate says.
fn listed(histogram: &hdrhistogram::Histogram<u64>) -> Vec<(u64, u64)> {
    histogram
        .iter_recorded()
        .map(|slot| (slot.value_iterated_to(), slot.count_at_value()))
        .collect()
}

/// Whether a histogram that does not grow has a slot for `value`.
fn has_slot(histogram: &hdrhistogram::Histogram<u64>, value: u64) -> bool {
    histogram.clone().record(value).is_ok()
}

#[test]
fn histogram_that_does_not_grow_takes_what_it_has_a_slot_for() {
    let mut rng = SmallRng::seed_from_u64(11);
    for digits in 0u8..=4 {
        for high in [2u64, 1000, 30_000_000, 1 << 40, i64::MAX as u64, 1 << 63, u64::MAX] {
            let bounded = hdrhistogram::Histogram::<u64>::new_with_bounds(1, high, digits).unwrap();
            let growing = hdrhistogram::Histogram::<u64>::new(digits).unwrap();
            // It has slots up to `high` at least, and they end below the
            // greatest number of all where `high` is no more than half of it.
            assert!(has_slot(&bounded, high));
            if high <= i64::MAX as u64 {
                assert!(!has_slot(&bounded, u64::MAX), "up to {high}, {digits} digits");
            }
            let mut probes: Vec<u64> =
                vec![0, 1, 2, high - 1, high, high.saturating_add(1), u64::MAX - 1, u64::MAX];
            for _ in 0..40 {
                probes.push(think_time(&plan(1, 0, high.saturating_mul(4)), &mut rng));
            }
            for value in probes.iter().copied() {
                // One that grows takes everything.
                assert!(has_slot(&growing, value));
                // What it has a slot for is everything up to one value.
                for lower in probes.iter().copied().filter(|lower| *lower <= value) {
                    if has_slot(&bounded, value) {
                        assert!(has_slot(&bounded, lower));
                    }
                }
                // The slots are in the same places in both, and stay there.
                let mut filled = bounded.clone();
                let _ = filled.record(value);
                assert!(bounded.lowest_equivalent(value) <= value);
                assert_eq!(bounded.lowest_equivalent(value), growing.lowest_equivalent(value));
                assert_eq!(bounded.lowest_equivalent(value), filled.lowest_equivalent(value));
            }
        }
    }
    for low in [2u64, 1000, 1 << 20, 1 << 40] {
        for high in [2 * low, 1 << 50, i64::MAX as u64] {
            if let Ok(bounded) = hdrhistogram::Histogram::<u64>::new_with_bounds(low, high, 2) {
                assert!(has_slot(&bounded, high));
                assert!(!has_slot(&bounded, u64::MAX), "from {low} up to {high}");
            }
        }
    }
}

#[test]
fn adding_is_refused_where_the_last_slot_ends() {
    let mut rng = SmallRng::seed_from_u64(5);
    for digits in 0u8..=4 {
        for high in [2u64, 3, 1000, 4095, 4096, 30_000_000, 1 << 40, i64::MAX as u64, u64::MAX] {
            let target = hdrhistogram::Histogram::<u64>::new_with_bounds(1, high, digits).unwrap();
            let ends_below_the_top = !has_slot(&target, u64::MAX);
            let mut probes: Vec<u64> =
                vec![0, 1, 2, high - 1, high, high.saturating_add(1), u64::MAX - 1, u64::MAX];
            for _ in 0..40 {
                probes.push(think_time(&plan(1, 0, high.saturating_mul(4)), &mut rng));
            }
            for value in probes {
                let mut other = hdrhistogram::Histogram::<u64>::new(digits).unwrap();
                other.record(value).unwrap();
                other.record(value / 2).unwrap();
                let mut sum = target.clone();
                sum.record(1).unwrap();
                let added = sum.add(&other);
                // Where it adds, the other holds nothing that has no slot.
                if added.is_ok() {
                    assert!(has_slot(&target, value), "{value} of {high} at {digits} digits");
                }
                // Where the other holds nothing that has no slot, it adds,
                // as long as the slots end below the greatest number of all.
                if has_slot(&target, value) && ends_below_the_top {
                    assert!(added.is_ok(), "{value} of {high} at {digits} digits");
                }
                if added.is_ok() {
                    let mut expected = target.clone();
                    for part in [1, value, value / 2] {
                        expected.record(part).unwrap();
                    }
                    assert_eq!(listed(&sum), listed(&expected));
                    assert_eq!(sum.len(), 3);
                } else {
                    assert_eq!(listed(&sum), vec![(1, 1)]);
                }
            }
        }
    }
}

#[test]
fn greatest_number_of_all_is_told_from_its_slot_when_adding() {
    let target = hdrhistogram::Histogram::<u64>::new_with_bounds(1, u64::MAX, 3).unwrap();
    assert!(has_slot(&target, u64::MAX));
    assert_eq!(target.lowest_equivalent(u64::MAX), target.lowest_equivalent(u64::MAX - 1));

    let mut greatest = hdrhistogram::Histogram::<u64>::new(3).unwrap();
    greatest.record(u64::MAX).unwrap();
    let mut next_to_it = hdrhistogram::Histogram::<u64>::new(3).unwrap();
    next_to_it.record(u64::MAX - 1).unwrap();
    // Both hold the same: one latency in the last slot.
    assert_eq!(listed(&greatest), listed(&next_to_it));

    // And yet one is refused and the other is not.
    let mut sum = target.clone();
    assert_eq!(
        sum.add(&greatest),
        Err(hdrhistogram::AdditionError::OtherAddendValueExceedsRange)
    );
    assert!(sum.is_empty());
    assert_eq!(sum.add(&next_to_it), Ok(()));
    assert_eq!(listed(&sum), listed(&next_to_it));

    // The totals of the library end far below that, so it cannot happen there.
    let mut global = GlobalMetrics::new();
    assert_eq!(
        global.try_merge(answered(1, &[u64::MAX])),
        Err(MergeError::ValueExceedsRange)
    );
    assert_eq!(
        global.try_merge(answered(1, &[u64::MAX - 1])),
        Err(MergeError::ValueExceedsRange)
    );
    assert!(global.combined_latencies().slots().is_empty());
}
