use agent_core::event::{AgentEvent, EventBus, LogStream};

#[test]
fn test_event_bus_creation() {
    let bus = EventBus::new(100);
    assert!(bus.subscribe().receiver.try_recv().is_err());
}

#[test]
fn test_event_publish() {
    let mut bus = EventBus::new(100);
    let mut sub = bus.subscribe();

    bus.publish(AgentEvent::AgentConnected);

    let event = sub.receiver.try_recv();
    assert!(matches!(event, Ok(AgentEvent::AgentConnected)));
}

#[test]
fn events_reach_every_subscriber_in_order() {
    let mut bus = EventBus::default();
    let mut first = bus.subscribe();
    let mut second = bus.clone().subscribe();
    bus.publish(AgentEvent::TaskStarted { task_id: 1 });
    bus.publish(AgentEvent::ServerLogLine { server_id: 2, line: "hi".to_string(), stream: LogStream::Stderr });
    assert!(matches!(first.receiver.try_recv(), Ok(AgentEvent::TaskStarted { task_id: 1 })));
    assert!(matches!(first.receiver.try_recv(), Ok(AgentEvent::ServerLogLine { server_id: 2, stream: LogStream::Stderr, .. })));
    assert!(matches!(second.receiver.try_recv(), Ok(AgentEvent::TaskStarted { task_id: 1 })));
    let mut tx = bus.sender();
    tx.send(AgentEvent::AgentConnected);
    assert!(matches!(second.receiver.try_recv(), Ok(AgentEvent::ServerLogLine { .. })));
    assert!(matches!(second.receiver.try_recv(), Ok(AgentEvent::AgentConnected)));
}
