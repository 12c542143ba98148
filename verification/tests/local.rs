//! The capabilities of this side that go out in payloads.

use capnp_rpc::caps::{write_outgoing_cap_table, OutgoingCap, OwnedCapDescriptor};
use capnp_rpc::client::ImportClient;
use capnp_rpc::connection::{Action, RpcConnectionState, RpcEvent};
use capnp_rpc::local::{export_requests, number_caps, HookDescriptor};
use capnp_rpc::message::{CapDescriptor, Message};
use capnp_rpc::runtime::Runtime;

struct Plain;

impl Runtime for Plain {
    type Content = u32;
    type Hook = u32;
    type Context = &'static str;
    type Answer = u32;
}

fn call() -> Message<Plain> {
    ImportClient { import_id: 0 }.new_call::<Plain>(1, 2).message
}

fn caps() -> Vec<Option<HookDescriptor<Plain>>> {
    vec![
        None,
        Some(HookDescriptor::Local(70)),
        Some(HookDescriptor::Owned(OwnedCapDescriptor::ReceiverHosted(5))),
        Some(HookDescriptor::Local(71)),
        Some(HookDescriptor::Local(70)),
    ]
}

#[test]
fn a_number_is_asked_for_on_a_channel_of_its_own() {
    let (event, port) = RpcEvent::<Plain>::new_local_server(&42);
    match event {
        RpcEvent::NewLocalServer(hook, chan) => {
            assert_eq!(hook, 42);
            chan.send(9).unwrap();
        }
        _ => panic!(),
    }
    assert_eq!(port.recv(), Ok(9));
}

#[test]
fn each_local_cap_is_exported_in_table_order() {
    let mut state: RpcConnectionState<Plain> = RpcConnectionState::new();
    let mut message = call();
    let descriptors = caps();
    let mut ids = Vec::new();
    let mut hooks = Vec::new();
    for (event, port) in export_requests(&message, &descriptors) {
        if let RpcEvent::NewLocalServer(hook, _) = &event {
            hooks.push(*hook);
        }
        match state.step(event, 0, &()) {
            Ok(Action::Exported { export_id, export_chan }) => export_chan.send(export_id).unwrap(),
            _ => panic!(),
        }
        ids.push(port.recv().unwrap());
    }
    // The same capability is exported once for each of its places.
    assert_eq!(hooks, vec![70, 71, 70]);
    assert_eq!(ids, vec![0, 1, 2]);
    write_outgoing_cap_table(&mut message, &number_caps(descriptors, &ids));
    let table = match message {
        Message::Call(call) => call.params.cap_table,
        _ => panic!(),
    };
    assert_eq!(table.len(), 4);
    assert!(matches!(table[0], CapDescriptor::SenderHosted(0)));
    assert!(matches!(table[1], CapDescriptor::ReceiverHosted(5)));
    assert!(matches!(table[2], CapDescriptor::SenderHosted(1)));
    assert!(matches!(table[3], CapDescriptor::SenderHosted(2)));
    assert_eq!(state.export_hook(1), Some(&71));
    assert_eq!(state.export_hook(2), Some(&70));
}

#[test]
fn numbers_go_to_the_local_caps_in_table_order() {
    let out = number_caps(caps(), &vec![30, 10, 20]);
    assert_eq!(out.len(), 5);
    assert!(out[0].is_none());
    assert!(matches!(out[1], Some(OutgoingCap::Exported(30))));
    assert!(matches!(
        out[2],
        Some(OutgoingCap::Described(OwnedCapDescriptor::ReceiverHosted(5)))
    ));
    assert!(matches!(out[3], Some(OutgoingCap::Exported(10))));
    assert!(matches!(out[4], Some(OutgoingCap::Exported(20))));
}

#[test]
fn nothing_is_exported_for_a_message_without_a_payload() {
    assert_eq!(export_requests(&Message::exception(1, vec![]), &caps()).len(), 0);
    assert_eq!(export_requests(&Message::Resolve, &caps()).len(), 0);
    assert_eq!(export_requests(&Message::empty_results(1), &caps()).len(), 3);
    assert_eq!(export_requests(&call(), &Vec::new()).len(), 0);
}
