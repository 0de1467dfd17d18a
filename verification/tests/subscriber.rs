use katalog_lib::coordinator::{Action, Outcome, Reply};
use katalog_lib::liveness::{Liveness, LivenessRegistry, SubscriberHandle};
use katalog_lib::signal::{NOTIFY_EVENT, REPLACE_EVENT};
use katalog_lib::single_process::{
    single_process, subscribe_only, SingleProcessConfig, SubscribeOnlyConfig,
};
use katalog_lib::subscriber_loop::{LoopAction, LoopEvent, LoopExit, LoopPhase, SubscriberLoop};

fn running_loop(registry: &mut LivenessRegistry) -> (SubscriberLoop, SubscriberHandle) {
    let handle = SubscriberHandle::new(registry).unwrap();
    let mut l = SubscriberLoop::new(handle);
    assert_eq!(l.action(), LoopAction::CreateListener);
    l.advance(registry, LoopEvent::Done);
    assert_eq!(l.action(), LoopAction::Wait { nanos: 200_000_000 });
    (l, handle)
}

#[test]
fn handles_are_told_apart_by_identity() {
    let mut registry = LivenessRegistry::new();
    let a = SubscriberHandle::new(&mut registry).unwrap();
    let b = SubscriberHandle::new(&mut registry).unwrap();
    assert_eq!(a.subscriber_id(), 1);
    assert_eq!(b.subscriber_id(), 2);
    assert_ne!(a, b);
    let copy = a;
    assert_eq!(a, copy);
    assert_eq!(a.clone(), a);
}

#[test]
fn close_is_seen_at_once_and_is_final() {
    let mut registry = LivenessRegistry::new();
    let a = SubscriberHandle::new(&mut registry).unwrap();
    let b = SubscriberHandle::new(&mut registry).unwrap();
    assert!(!a.is_closed(&registry));
    assert_eq!(registry.lookup(a), Liveness::Running);
    a.close(&mut registry);
    assert!(a.is_closed(&registry));
    assert_eq!(registry.lookup(a), Liveness::Stopping);
    assert!(!b.is_closed(&registry));
    a.close(&mut registry);
    assert_eq!(registry.lookup(a), Liveness::Stopping);
    registry.retire(a);
    assert_eq!(registry.lookup(a), Liveness::Exited);
    // no-op once the loop has gone
    a.close(&mut registry);
    assert_eq!(registry.lookup(a), Liveness::Exited);
    assert!(a.is_closed(&registry));
    assert!(!b.is_closed(&registry));
}

#[test]
fn handle_of_another_registry_reads_closed() {
    let mut one = LivenessRegistry::new();
    let other = LivenessRegistry::new();
    let handle = SubscriberHandle::new(&mut one).unwrap();
    assert!(handle.is_closed(&other));
    assert_eq!(other.lookup(handle), Liveness::Exited);
}

#[test]
fn loop_drains_on_every_wake() {
    let mut registry = LivenessRegistry::new();
    let (mut l, handle) = running_loop(&mut registry);
    assert_eq!(l.handle(), handle);
    // woken by a notification: two messages are waiting
    l.signal_fired(&mut registry, NOTIFY_EVENT);
    l.advance(&mut registry, LoopEvent::Done);
    let mut handled = 0;
    for event in [LoopEvent::Message, LoopEvent::Message, LoopEvent::Empty] {
        assert_eq!(l.action(), LoopAction::Receive);
        l.advance(&mut registry, event);
        if l.action() == LoopAction::Handle {
            handled += 1;
            l.advance(&mut registry, LoopEvent::Done);
        }
    }
    assert_eq!(handled, 2);
    // woken by the timeout alone: nothing is waiting
    assert_eq!(l.action(), LoopAction::Wait { nanos: 200_000_000 });
    l.advance(&mut registry, LoopEvent::Done);
    assert_eq!(l.action(), LoopAction::Receive);
    l.advance(&mut registry, LoopEvent::Empty);
    assert_eq!(l.phase(), LoopPhase::Waiting);
    assert!(!handle.is_closed(&registry));
}

#[test]
fn close_ends_the_loop_within_one_poll() {
    let mut registry = LivenessRegistry::new();
    let (mut l, handle) = running_loop(&mut registry);
    handle.close(&mut registry);
    assert!(handle.is_closed(&registry));
    // the wait that is under way runs out, the channel is drained once more
    l.advance(&mut registry, LoopEvent::Done);
    assert_eq!(l.action(), LoopAction::Receive);
    l.advance(&mut registry, LoopEvent::Message);
    l.advance(&mut registry, LoopEvent::Done);
    l.advance(&mut registry, LoopEvent::Empty);
    assert_eq!(l.phase(), LoopPhase::Stopped(LoopExit::Closed));
    assert_eq!(l.action(), LoopAction::Stop);
    assert_eq!(registry.lookup(handle), Liveness::Exited);
    assert!(handle.is_closed(&registry));
}

#[test]
fn loop_closed_before_it_started_never_waits() {
    let mut registry = LivenessRegistry::new();
    let handle = SubscriberHandle::new(&mut registry).unwrap();
    let mut l = SubscriberLoop::new(handle);
    handle.close(&mut registry);
    l.advance(&mut registry, LoopEvent::Done);
    assert_eq!(l.phase(), LoopPhase::Stopped(LoopExit::Closed));
}

#[test]
fn replace_signal_ends_the_loop() {
    let mut registry = LivenessRegistry::new();
    let (mut l, handle) = running_loop(&mut registry);
    l.signal_fired(&mut registry, 12);
    l.signal_fired(&mut registry, NOTIFY_EVENT);
    assert_eq!(registry.lookup(handle), Liveness::Running);
    l.signal_fired(&mut registry, REPLACE_EVENT);
    assert_eq!(registry.lookup(handle), Liveness::Stopping);
    l.advance(&mut registry, LoopEvent::Done);
    l.advance(&mut registry, LoopEvent::Empty);
    assert_eq!(l.phase(), LoopPhase::Stopped(LoopExit::Closed));
    assert!(handle.is_closed(&registry));
}

#[test]
fn transport_errors_end_the_loop() {
    let mut registry = LivenessRegistry::new();

    let handle = SubscriberHandle::new(&mut registry).unwrap();
    let mut l = SubscriberLoop::new(handle);
    l.advance(&mut registry, LoopEvent::Failed);
    assert_eq!(l.phase(), LoopPhase::Stopped(LoopExit::ListenerFailed));
    assert!(handle.is_closed(&registry));

    let (mut l, handle) = running_loop(&mut registry);
    l.advance(&mut registry, LoopEvent::Failed);
    assert_eq!(l.phase(), LoopPhase::Stopped(LoopExit::Closed));
    assert!(handle.is_closed(&registry));

    let (mut l, handle) = running_loop(&mut registry);
    l.advance(&mut registry, LoopEvent::Done);
    l.advance(&mut registry, LoopEvent::Failed);
    assert_eq!(l.phase(), LoopPhase::Stopped(LoopExit::ReceiveFailed));
    assert!(handle.is_closed(&registry));

    let (mut l, handle) = running_loop(&mut registry);
    l.advance(&mut registry, LoopEvent::Done);
    l.advance(&mut registry, LoopEvent::Message);
    assert_eq!(l.action(), LoopAction::Handle);
    l.advance(&mut registry, LoopEvent::Failed);
    assert_eq!(l.phase(), LoopPhase::Stopped(LoopExit::HandlerFailed));
    assert_eq!(registry.lookup(handle), Liveness::Exited);

    // a loop that is over stays over
    l.advance(&mut registry, LoopEvent::Done);
    assert_eq!(l.phase(), LoopPhase::Stopped(LoopExit::HandlerFailed));
}

/// Two processes under the names "app" and "chan": the first serves, the
/// second sends a message, and the handler of the first sees it once.
#[test]
fn delegated_message_is_handled_exactly_once() {
    let mut registry_a = LivenessRegistry::new();
    let mut config = SingleProcessConfig::new("app");
    config.service_name = "chan";

    let mut a = single_process(&config);
    let mut slot_taken = false;
    let mut loop_a = None;
    while a.outcome().is_none() {
        let reply = match a.action() {
            Action::ClaimSlot if slot_taken => Reply::SlotOccupied,
            Action::ClaimSlot => {
                slot_taken = true;
                Reply::Done
            }
            Action::SpawnLoop(handle) => {
                loop_a = Some(SubscriberLoop::new(handle));
                Reply::Done
            }
            _ => Reply::Done,
        };
        a.advance(&mut registry_a, reply, 0);
    }
    assert!(matches!(a.outcome(), Some(Ok(Outcome::BecameSubscriber(_)))));
    let mut loop_a = loop_a.unwrap();
    loop_a.advance(&mut registry_a, LoopEvent::Done);

    let mut registry_b = LivenessRegistry::new();
    let mut b = single_process(&config);
    let mut in_channel = 0;
    let mut fired = Vec::new();
    while b.outcome().is_none() {
        let reply = match b.action() {
            Action::ClaimSlot if slot_taken => Reply::SlotOccupied,
            Action::SendMessage => {
                in_channel += 1;
                Reply::Done
            }
            Action::Fire(signal) => {
                fired.push(signal.event_id());
                Reply::Done
            }
            _ => Reply::Done,
        };
        b.advance(&mut registry_b, reply, 0);
    }
    assert_eq!(b.outcome(), Some(Ok(Outcome::DelegatedToExisting)));
    assert_eq!(fired, vec![NOTIFY_EVENT]);

    let mut handled = 0;
    for id in fired {
        loop_a.signal_fired(&mut registry_a, id);
    }
    loop_a.advance(&mut registry_a, LoopEvent::Done);
    while loop_a.phase() != LoopPhase::Waiting {
        match loop_a.action() {
            LoopAction::Receive if in_channel > 0 => {
                in_channel -= 1;
                loop_a.advance(&mut registry_a, LoopEvent::Message);
            }
            LoopAction::Receive => loop_a.advance(&mut registry_a, LoopEvent::Empty),
            LoopAction::Handle => {
                handled += 1;
                loop_a.advance(&mut registry_a, LoopEvent::Done);
            }
            other => panic!("unexpected action {other:?}"),
        }
    }
    assert_eq!(handled, 1);
    assert_eq!(in_channel, 0);
}

/// A third process takes the slot over while the first still holds it: the
/// first one's loop leaves on the request, and the third succeeds within its
/// timeout of 200 ms.
#[test]
fn subscribe_only_evicts_the_running_subscriber() {
    let mut registry_a = LivenessRegistry::new();
    let (mut loop_a, handle_a) = running_loop(&mut registry_a);
    let mut a_holds_slot = true;

    let mut registry_c = LivenessRegistry::new();
    let mut config = SubscribeOnlyConfig::new("app");
    config.service_name = "chan";
    let mut c = subscribe_only(&config);
    let mut clock: u128 = 0;
    let mut claims = 0;
    while c.outcome().is_none() {
        let reply = match c.action() {
            Action::ClaimSlot => {
                claims += 1;
                if a_holds_slot { Reply::SlotOccupied } else { Reply::Done }
            }
            Action::Fire(signal) => {
                // A wakes, sees the request, drains and leaves
                loop_a.signal_fired(&mut registry_a, signal.event_id());
                loop_a.advance(&mut registry_a, LoopEvent::Done);
                loop_a.advance(&mut registry_a, LoopEvent::Empty);
                a_holds_slot = loop_a.action() != LoopAction::Stop;
                Reply::Done
            }
            Action::Wait { nanos } => {
                clock += nanos as u128;
                Reply::Done
            }
            _ => Reply::Done,
        };
        c.advance(&mut registry_c, reply, clock);
    }
    assert!(matches!(c.outcome(), Some(Ok(Outcome::BecameSubscriber(_)))));
    assert_eq!(claims, 2);
    assert!(clock <= 200_000_000);
    assert_eq!(loop_a.phase(), LoopPhase::Stopped(LoopExit::Closed));
    assert!(handle_a.is_closed(&registry_a));
}
