use rosu_tracker::cycle::{after_liveness, after_send, sent, unsent, Step, Verdict};
use rosu_tracker::registry::{Delivery, Inbound, Registry, SocketReport};
use rosu_tracker::structs::{WsClient, WsKind};

fn registry_of(clients: &[(WsKind, u32)]) -> Registry<u32> {
    let mut registry = Registry::new();
    for (kind, client) in clients {
        registry.register(WsClient { kind: *kind, client: *client });
    }
    registry
}

fn ids(registry: &Registry<u32>) -> Vec<u32> {
    registry.clients.iter().map(|c| c.client).collect()
}

fn alive() -> SocketReport {
    sent(Inbound::Quiet, Delivery::Sent)
}

/// Runs one cycle against scripted sockets: what each one has waiting, and
/// whether a write to it goes through. Returns the ids that were written to.
fn run_cycle(registry: &mut Registry<u32>, script: &[(Inbound, bool)]) -> Vec<u32> {
    let mut written = Vec::new();
    let mut reports = Vec::new();
    for (i, client) in registry.clients.iter().enumerate() {
        let (inbound, write_ok) = script[i];
        let report = match after_liveness(inbound) {
            Step::Discard => unsent(inbound),
            Step::Deliver => {
                written.push(client.client);
                let delivery = if write_ok { Delivery::Sent } else { Delivery::Failed };
                let _ = after_send(delivery);
                sent(inbound, delivery)
            }
        };
        reports.push(report);
    }
    registry.prune(&reports);
    written
}

#[test]
fn new_registry_is_empty() {
    let registry: Registry<u32> = Registry::new();
    assert_eq!(registry.len(), 0);
    assert_eq!(registry.kind_at(0), None);
}

#[test]
fn register_appends_in_order() {
    let registry = registry_of(&[(WsKind::User, 1), (WsKind::Tops, 2), (WsKind::User, 3)]);
    assert_eq!(registry.len(), 3);
    assert_eq!(ids(&registry), vec![1, 2, 3]);
    assert_eq!(registry.kind_at(0), Some(WsKind::User));
    assert_eq!(registry.kind_at(1), Some(WsKind::Tops));
    assert_eq!(registry.kind_at(2), Some(WsKind::User));
    assert_eq!(registry.kind_at(3), None);
}

#[test]
fn prune_keeps_everyone_alive() {
    let mut registry = registry_of(&[(WsKind::User, 1), (WsKind::Tops, 2), (WsKind::Recent, 3)]);
    registry.prune(&vec![alive(), alive(), alive()]);
    assert_eq!(ids(&registry), vec![1, 2, 3]);
}

#[test]
fn prune_drops_exactly_the_dead() {
    let mut registry = registry_of(&[
        (WsKind::User, 1),
        (WsKind::Tops, 2),
        (WsKind::Firsts, 3),
        (WsKind::Recent, 4),
        (WsKind::User, 5),
    ]);
    registry.prune(&vec![
        unsent(Inbound::Close),
        alive(),
        unsent(Inbound::Failed),
        sent(Inbound::Frame, Delivery::Failed),
        sent(Inbound::Frame, Delivery::Sent),
    ]);
    assert_eq!(ids(&registry), vec![2, 5]);
    assert_eq!(registry.kind_at(0), Some(WsKind::Tops));
    assert_eq!(registry.kind_at(1), Some(WsKind::User));
}

#[test]
fn prune_can_empty_the_registry() {
    let mut registry = registry_of(&[(WsKind::User, 1), (WsKind::Tops, 2)]);
    registry.prune(&vec![unsent(Inbound::Close), sent(Inbound::Quiet, Delivery::Failed)]);
    assert_eq!(registry.len(), 0);
}

#[test]
fn prune_on_an_empty_registry() {
    let mut registry: Registry<u32> = Registry::new();
    registry.prune(&vec![unsent(Inbound::Close)]);
    assert_eq!(registry.len(), 0);
    registry.prune(&Vec::new());
    assert_eq!(registry.len(), 0);
}

#[test]
fn subscribers_without_a_report_stay() {
    let mut registry = registry_of(&[(WsKind::User, 1), (WsKind::Tops, 2), (WsKind::Tops, 3)]);
    registry.prune(&vec![unsent(Inbound::Close)]);
    assert_eq!(ids(&registry), vec![2, 3]);
    registry.prune(&Vec::new());
    assert_eq!(ids(&registry), vec![2, 3]);
}

#[test]
fn equal_subscribers_are_told_apart_by_position() {
    let mut registry = registry_of(&[(WsKind::User, 7), (WsKind::User, 7), (WsKind::User, 7)]);
    registry.prune(&vec![alive(), unsent(Inbound::Failed), alive()]);
    assert_eq!(ids(&registry), vec![7, 7]);
}

#[test]
fn closed_socket_is_gone_from_the_next_cycle_on() {
    let mut registry = registry_of(&[(WsKind::User, 1), (WsKind::Tops, 2), (WsKind::Recent, 3)]);
    let ok = (Inbound::Quiet, true);

    let written = run_cycle(&mut registry, &[ok, ok, ok]);
    assert_eq!(written, vec![1, 2, 3]);
    assert_eq!(ids(&registry), vec![1, 2, 3]);

    // The peer of subscriber 2 closed in between: the pass finds the close
    // frame, writes nothing to it and drops it.
    let written = run_cycle(&mut registry, &[ok, (Inbound::Close, true), ok]);
    assert_eq!(written, vec![1, 3]);
    assert_eq!(ids(&registry), vec![1, 3]);

    let written = run_cycle(&mut registry, &[ok, ok]);
    assert_eq!(written, vec![1, 3]);
    assert_eq!(ids(&registry), vec![1, 3]);
}

#[test]
fn failed_write_drops_the_subscriber() {
    let mut registry = registry_of(&[(WsKind::User, 1), (WsKind::Tops, 2)]);
    let written = run_cycle(&mut registry, &[(Inbound::Frame, false), (Inbound::Frame, true)]);
    assert_eq!(written, vec![1, 2]);
    assert_eq!(ids(&registry), vec![2]);
    assert_eq!(after_send(Delivery::Failed), Verdict::CloseAndDiscard);
}

#[test]
fn late_joiner_gets_the_next_cycle() {
    let mut registry = registry_of(&[(WsKind::User, 1)]);
    let ok = (Inbound::Quiet, true);
    assert_eq!(run_cycle(&mut registry, &[ok]), vec![1]);
    registry.register(WsClient { kind: WsKind::Firsts, client: 2 });
    assert_eq!(run_cycle(&mut registry, &[ok, ok]), vec![1, 2]);
}
