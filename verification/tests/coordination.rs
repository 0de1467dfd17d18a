use katalog_lib::coordinator::{
    Action, Coordinator, Failure, Mode, Outcome, Phase, Reply, SubscribeOnlyTimeoutError,
};
use katalog_lib::liveness::{Liveness, LivenessRegistry};
use katalog_lib::signal::Signal;
use katalog_lib::single_process::{
    single_process, subscribe_only, SingleProcessConfig, SubscribeOnlyConfig,
    DEFAULT_SERVICE_NAME, DEFAULT_THREAD_NAME,
};

const MS: u64 = 1_000_000;

fn app_chan() -> SingleProcessConfig {
    let mut config = SingleProcessConfig::new("app");
    config.service_name = "chan";
    config
}

fn taker(timeout_nanos: u128) -> SubscribeOnlyConfig {
    let mut config = SubscribeOnlyConfig::new("app");
    config.service_name = "chan";
    config.timeout_nanos = timeout_nanos;
    config
}

/// Answers every request with `Done`, but for the claims of the slot, which
/// get the answers of `claims` in turn. Returns what was asked for.
fn drive(c: &mut Coordinator, registry: &mut LivenessRegistry, claims: &[Reply]) -> Vec<Action> {
    let mut asked = Vec::new();
    let mut claims = claims.iter();
    loop {
        let action = c.action();
        asked.push(action);
        let reply = match action {
            Action::Stop => return asked,
            Action::ClaimSlot => *claims.next().expect("a claim that the script does not know"),
            _ => Reply::Done,
        };
        c.advance(registry, reply, 0);
    }
}

/// Brings a coordinator to the first claim of the slot.
fn provisioned(mut c: Coordinator, registry: &mut LivenessRegistry) -> Coordinator {
    for _ in 0..3 {
        c.advance(registry, Reply::Done, 0);
    }
    assert_eq!(c.phase(), Phase::ClaimingSlot);
    c
}

#[test]
fn defaults_of_the_configurations() {
    let config = SingleProcessConfig::new("app");
    assert_eq!(config.node_name, "app");
    assert_eq!(config.service_name, "single_process");
    assert_eq!(config.thread_name(), "single_process_subscriber");
    assert_eq!(DEFAULT_SERVICE_NAME, "single_process");
    assert_eq!(DEFAULT_THREAD_NAME, "single_process_subscriber");

    let config = SubscribeOnlyConfig::new("app");
    assert_eq!(config.node_name, "app");
    assert_eq!(config.service_name, "single_process");
    assert_eq!(config.thread_name(), "single_process_subscriber");
    assert_eq!(config.timeout_nanos, 200_000_000);
}

#[test]
fn configured_thread_name_is_used() {
    let mut config = SingleProcessConfig::new("app");
    config.thread_name = Some(String::from("receiver"));
    assert_eq!(config.thread_name(), "receiver");
    let mut config = SubscribeOnlyConfig::new("app");
    config.thread_name = Some(String::from("taker"));
    assert_eq!(config.thread_name(), "taker");
}

#[test]
fn first_process_becomes_subscriber() {
    let mut registry = LivenessRegistry::new();
    let mut a = single_process(&app_chan());
    assert_eq!(a.mode(), Mode::SingleProcess);
    assert_eq!(a.outcome(), None);
    let asked = drive(&mut a, &mut registry, &[Reply::Done]);
    let handle = match a.outcome() {
        Some(Ok(Outcome::BecameSubscriber(handle))) => handle,
        other => panic!("unexpected outcome {other:?}"),
    };
    assert_eq!(handle.subscriber_id(), 1);
    assert!(!handle.is_closed(&registry));
    assert_eq!(
        asked,
        vec![
            Action::CreateNode,
            Action::CreateDataChannel,
            Action::CreateEventChannel,
            Action::ClaimSlot,
            Action::SpawnLoop(handle),
            Action::Stop,
        ]
    );
}

#[test]
fn second_process_delegates_its_message() {
    let mut registry = LivenessRegistry::new();
    let mut a = single_process(&app_chan());
    drive(&mut a, &mut registry, &[Reply::Done]);

    let mut b = single_process(&app_chan());
    let asked = drive(&mut b, &mut registry, &[Reply::SlotOccupied]);
    assert_eq!(b.outcome(), Some(Ok(Outcome::DelegatedToExisting)));
    assert_eq!(
        asked,
        vec![
            Action::CreateNode,
            Action::CreateDataChannel,
            Action::CreateEventChannel,
            Action::ClaimSlot,
            Action::CreatePublisher,
            Action::CreateNotifier(Signal::Notify),
            Action::LoanBuffer,
            Action::ProduceMessage,
            Action::SendMessage,
            Action::Fire(Signal::Notify),
            Action::Wait { nanos: 50 * MS },
            Action::Stop,
        ]
    );
    assert_eq!(asked.iter().filter(|a| **a == Action::SendMessage).count(), 1);
}

#[test]
fn of_many_processes_exactly_one_subscribes() {
    let mut registry = LivenessRegistry::new();
    let mut subscribers = 0;
    let mut delegates = 0;
    for position in 0..5 {
        let mut c = single_process(&app_chan());
        let claim = if position == 0 { Reply::Done } else { Reply::SlotOccupied };
        drive(&mut c, &mut registry, &[claim]);
        match c.outcome() {
            Some(Ok(Outcome::BecameSubscriber(_))) => subscribers += 1,
            Some(Ok(Outcome::DelegatedToExisting)) => delegates += 1,
            other => panic!("unexpected outcome {other:?}"),
        }
    }
    assert_eq!((subscribers, delegates), (1, 4));
}

#[test]
fn failed_notification_makes_the_publisher_linger_longer() {
    let mut registry = LivenessRegistry::new();
    let mut b = provisioned(single_process(&app_chan()), &mut registry);
    b.advance(&mut registry, Reply::SlotOccupied, 0);
    for _ in 0..5 {
        b.advance(&mut registry, Reply::Done, 0);
    }
    assert_eq!(b.action(), Action::Fire(Signal::Notify));
    b.advance(&mut registry, Reply::Failed, 0);
    assert_eq!(b.action(), Action::Wait { nanos: 200 * MS });
    // the wait is advisory: cut short, the publish still counts
    b.advance(&mut registry, Reply::Failed, 0);
    assert_eq!(b.outcome(), Some(Ok(Outcome::DelegatedToExisting)));
}

#[test]
fn every_publish_step_can_fail_before_the_send() {
    let failures = [
        Failure::PublisherCreation,
        Failure::NotifierCreation,
        Failure::BufferLoan,
        Failure::MessageProduction,
        Failure::MessageSend,
    ];
    for (good_steps, failure) in failures.iter().enumerate() {
        let mut registry = LivenessRegistry::new();
        let mut b = provisioned(single_process(&app_chan()), &mut registry);
        b.advance(&mut registry, Reply::SlotOccupied, 0);
        let mut sent = false;
        for _ in 0..good_steps {
            sent |= b.action() == Action::SendMessage;
            b.advance(&mut registry, Reply::Done, 0);
        }
        b.advance(&mut registry, Reply::Failed, 0);
        assert_eq!(b.outcome(), Some(Err(*failure)));
        assert_eq!(b.action(), Action::Stop);
        assert!(!sent);
    }
}

#[test]
fn set_up_failures() {
    let mut registry = LivenessRegistry::new();

    let mut c = single_process(&app_chan());
    c.advance(&mut registry, Reply::Failed, 0);
    assert_eq!(c.outcome(), Some(Err(Failure::NodeCreation)));

    let mut c = single_process(&app_chan());
    c.advance(&mut registry, Reply::Done, 0);
    c.advance(&mut registry, Reply::Done, 0);
    c.advance(&mut registry, Reply::Failed, 0);
    assert_eq!(c.outcome(), Some(Err(Failure::EventChannelCreation)));

    let mut c = provisioned(single_process(&app_chan()), &mut registry);
    c.advance(&mut registry, Reply::Failed, 0);
    assert_eq!(c.outcome(), Some(Err(Failure::SlotClaim)));

    // a result is final
    c.advance(&mut registry, Reply::Done, 0);
    assert_eq!(c.outcome(), Some(Err(Failure::SlotClaim)));
}

#[test]
fn refused_names_fail_before_anything_is_created() {
    let mut config = SingleProcessConfig::new("nöde");
    let c = single_process(&config);
    assert_eq!(c.outcome(), Some(Err(Failure::InvalidNodeName)));
    assert_eq!(c.action(), Action::Stop);

    config.node_name = "app";
    config.service_name = "";
    let c = single_process(&config);
    assert_eq!(c.outcome(), Some(Err(Failure::InvalidServiceName)));

    let mut config = SubscribeOnlyConfig::new("app");
    config.service_name = "iox2://reserved";
    let c = subscribe_only(&config);
    assert_eq!(c.outcome(), Some(Err(Failure::InvalidServiceName)));
    assert_eq!(c.mode(), Mode::SubscribeOnly);
}

#[test]
fn stale_resources_are_swept_once_before_one_retry() {
    let mut registry = LivenessRegistry::new();
    let mut c = single_process(&app_chan());
    c.advance(&mut registry, Reply::Done, 0);
    assert_eq!(c.action(), Action::CreateDataChannel);
    c.advance(&mut registry, Reply::Failed, 0);
    assert_eq!(c.action(), Action::SweepStaleNodes);
    // the sweep is best effort: its failure is not an error
    c.advance(&mut registry, Reply::Failed, 0);
    assert_eq!(c.action(), Action::CreateDataChannel);
    assert_eq!(c.phase(), Phase::CreatingDataChannel { retried: true });
    c.advance(&mut registry, Reply::Done, 0);
    assert_eq!(c.action(), Action::CreateEventChannel);

    let mut c = single_process(&app_chan());
    c.advance(&mut registry, Reply::Done, 0);
    c.advance(&mut registry, Reply::Failed, 0);
    c.advance(&mut registry, Reply::Done, 0);
    c.advance(&mut registry, Reply::Failed, 0);
    assert_eq!(c.outcome(), Some(Err(Failure::DataChannelCreation)));
}

#[test]
fn channel_of_another_shape_is_not_retried() {
    let mut registry = LivenessRegistry::new();
    let mut c = single_process(&app_chan());
    c.advance(&mut registry, Reply::Done, 0);
    c.advance(&mut registry, Reply::ShapeMismatch, 0);
    assert_eq!(c.outcome(), Some(Err(Failure::DataChannelCreation)));
}

#[test]
fn subscribe_only_on_a_free_slot() {
    let mut registry = LivenessRegistry::new();
    let mut c = subscribe_only(&taker(200_000_000));
    assert_eq!(c.timeout_nanos(), 200_000_000);
    let asked = drive(&mut c, &mut registry, &[Reply::Done]);
    assert!(matches!(c.outcome(), Some(Ok(Outcome::BecameSubscriber(_)))));
    assert!(!asked.contains(&Action::Fire(Signal::Replace)));
}

#[test]
fn takeover_succeeds_on_the_second_claim() {
    let mut registry = LivenessRegistry::new();
    let mut c = provisioned(subscribe_only(&taker(200_000_000)), &mut registry);
    assert_eq!(c.action(), Action::ClaimSlot);
    c.advance(&mut registry, Reply::SlotOccupied, 1_000);
    assert_eq!(c.action(), Action::CreateNotifier(Signal::Replace));
    c.advance(&mut registry, Reply::Done, 1_000);
    assert_eq!(c.action(), Action::Fire(Signal::Replace));
    assert_eq!(c.phase(), Phase::SignallingReplace { entered_at: 1_000, bound: 2 * MS });
    c.advance_with_jitter(&mut registry, Reply::Done, 1_000, MS);
    assert_eq!(c.action(), Action::Wait { nanos: MS });
    c.advance(&mut registry, Reply::Done, 1_001_000);
    assert_eq!(c.action(), Action::ClaimSlot);
    c.advance(&mut registry, Reply::Done, 1_001_000);
    let handle = match c.action() {
        Action::SpawnLoop(handle) => handle,
        other => panic!("unexpected action {other:?}"),
    };
    c.advance(&mut registry, Reply::Done, 1_001_000);
    assert_eq!(c.outcome(), Some(Ok(Outcome::BecameSubscriber(handle))));
}

#[test]
fn jitter_above_the_bound_counts_as_the_bound() {
    let mut registry = LivenessRegistry::new();
    let mut c = provisioned(subscribe_only(&taker(200_000_000)), &mut registry);
    c.advance(&mut registry, Reply::SlotOccupied, 0);
    c.advance(&mut registry, Reply::Done, 0);
    c.advance_with_jitter(&mut registry, Reply::Done, 0, u64::MAX);
    assert_eq!(c.action(), Action::Wait { nanos: 2 * MS });
}

#[test]
fn drawn_pauses_stay_below_the_growing_bound() {
    let mut registry = LivenessRegistry::new();
    let mut c = provisioned(subscribe_only(&taker(u128::MAX)), &mut registry);
    c.advance(&mut registry, Reply::SlotOccupied, 0);
    c.advance(&mut registry, Reply::Done, 0);
    let bounds = [2, 4, 8, 16, 32, 64, 100, 100, 100];
    for bound in bounds {
        assert_eq!(c.action(), Action::Fire(Signal::Replace));
        c.advance(&mut registry, Reply::Done, 0);
        match c.phase() {
            Phase::BackingOff { bound: b, nanos, .. } => {
                assert_eq!(b, bound * MS);
                assert!(nanos <= b);
                assert_eq!(c.action(), Action::Wait { nanos });
            }
            other => panic!("unexpected phase {other:?}"),
        }
        c.advance(&mut registry, Reply::Done, 0);
        assert_eq!(c.action(), Action::ClaimSlot);
        c.advance(&mut registry, Reply::SlotOccupied, 0);
    }
}

#[test]
fn takeover_times_out_against_a_subscriber_that_stays() {
    let timeout: u128 = 200_000_000;
    let mut registry = LivenessRegistry::new();
    let mut c = provisioned(subscribe_only(&taker(timeout)), &mut registry);
    let entered_at: u128 = 5_000;
    let mut clock = entered_at;
    c.advance(&mut registry, Reply::SlotOccupied, clock);
    c.advance(&mut registry, Reply::Done, clock);
    let mut rounds = 0;
    let mut last_bound = 0;
    while c.outcome().is_none() {
        assert_eq!(c.action(), Action::Fire(Signal::Replace));
        // the pause takes all that its bound allows
        c.advance_with_jitter(&mut registry, Reply::Done, clock, u64::MAX);
        let nanos = match c.action() {
            Action::Wait { nanos } => nanos,
            other => panic!("unexpected action {other:?}"),
        };
        last_bound = nanos;
        assert!(clock - entered_at <= timeout);
        clock += nanos as u128;
        c.advance(&mut registry, Reply::Done, clock);
        assert_eq!(c.action(), Action::ClaimSlot);
        c.advance(&mut registry, Reply::SlotOccupied, clock);
        rounds += 1;
    }
    assert_eq!(
        c.outcome(),
        Some(Err(Failure::Timeout(SubscribeOnlyTimeoutError { timeout_nanos: timeout })))
    );
    // pauses of 2, 4, 8, 16, 32, 64 and 100 ms: 226 ms have passed
    assert_eq!(rounds, 7);
    assert_eq!(clock - entered_at, 226_000_000);
    assert!(clock - entered_at <= timeout + last_bound as u128);
}

#[test]
fn timeout_is_checked_after_the_failed_claim_only() {
    let mut registry = LivenessRegistry::new();
    let mut c = provisioned(subscribe_only(&taker(10)), &mut registry);
    c.advance(&mut registry, Reply::SlotOccupied, 100);
    c.advance(&mut registry, Reply::Done, 100);
    c.advance_with_jitter(&mut registry, Reply::Done, 100, 0);
    c.advance(&mut registry, Reply::Done, 100);
    // exactly the timeout has passed: not yet out of time
    c.advance(&mut registry, Reply::SlotOccupied, 110);
    assert_eq!(c.phase(), Phase::SignallingReplace { entered_at: 100, bound: 4 * MS });
    c.advance_with_jitter(&mut registry, Reply::Done, 10_000, 0);
    c.advance(&mut registry, Reply::Done, 10_000);
    // long past the timeout, but the slot is free: the takeover succeeds
    c.advance(&mut registry, Reply::Done, 10_000);
    assert!(matches!(c.action(), Action::SpawnLoop(_)));

    let mut c = provisioned(subscribe_only(&taker(10)), &mut registry);
    c.advance(&mut registry, Reply::SlotOccupied, 100);
    c.advance(&mut registry, Reply::Done, 100);
    c.advance_with_jitter(&mut registry, Reply::Done, 100, 0);
    c.advance(&mut registry, Reply::Done, 100);
    c.advance(&mut registry, Reply::SlotOccupied, 111);
    assert_eq!(
        c.outcome(),
        Some(Err(Failure::Timeout(SubscribeOnlyTimeoutError { timeout_nanos: 10 })))
    );
}

#[test]
fn takeover_aborts_when_the_signal_fails() {
    let mut registry = LivenessRegistry::new();
    let mut c = provisioned(subscribe_only(&taker(200_000_000)), &mut registry);
    c.advance(&mut registry, Reply::SlotOccupied, 0);
    c.advance(&mut registry, Reply::Done, 0);
    c.advance(&mut registry, Reply::Failed, 0);
    assert_eq!(c.outcome(), Some(Err(Failure::ReplaceSignal)));

    let mut c = provisioned(subscribe_only(&taker(200_000_000)), &mut registry);
    c.advance(&mut registry, Reply::SlotOccupied, 0);
    c.advance(&mut registry, Reply::Failed, 0);
    assert_eq!(c.outcome(), Some(Err(Failure::NotifierCreation)));

    let mut c = provisioned(subscribe_only(&taker(200_000_000)), &mut registry);
    c.advance(&mut registry, Reply::SlotOccupied, 0);
    c.advance(&mut registry, Reply::Done, 0);
    c.advance(&mut registry, Reply::Done, 0);
    // an interrupted pause is not an error
    c.advance(&mut registry, Reply::Failed, 0);
    assert_eq!(c.action(), Action::ClaimSlot);
    c.advance(&mut registry, Reply::Failed, 0);
    assert_eq!(c.outcome(), Some(Err(Failure::SlotClaim)));
}

#[test]
fn loop_that_cannot_be_started_leaves_a_closed_handle() {
    let mut registry = LivenessRegistry::new();
    let mut c = provisioned(single_process(&app_chan()), &mut registry);
    c.advance(&mut registry, Reply::Done, 0);
    let handle = match c.action() {
        Action::SpawnLoop(handle) => handle,
        other => panic!("unexpected action {other:?}"),
    };
    assert!(!handle.is_closed(&registry));
    c.advance(&mut registry, Reply::Failed, 0);
    assert_eq!(c.outcome(), Some(Err(Failure::LoopSpawn)));
    assert!(handle.is_closed(&registry));
    assert_eq!(registry.lookup(handle), Liveness::Exited);
}

#[test]
fn coordinator_can_begin_failed() {
    let c = Coordinator::failed(Mode::SubscribeOnly, 7, Failure::InvalidNodeName);
    assert_eq!(c.phase(), Phase::Failed(Failure::InvalidNodeName));
    assert_eq!(c.timeout_nanos(), 7);
    let c = Coordinator::new(Mode::SingleProcess, 9);
    assert_eq!(c.phase(), Phase::CreatingNode);
    assert_eq!(c.action(), Action::CreateNode);
}
