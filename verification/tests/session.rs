//! Two-agent connectivity scenarios, driven by a loopback engine: the test
//! plays the connectivity engine's role and feeds each agent the events a
//! real engine would report.

use std::sync::{Arc, Mutex};

use libjuice_rs::{Agent, Description, IpAddress, SelectedPair, SocketAddress, State};

fn pair_for(local: &str, remote: &str, local_port: u16, remote_port: u16) -> SelectedPair {
    SelectedPair {
        local_candidate: local.to_string(),
        remote_candidate: remote.to_string(),
        local_address: SocketAddress { ip: IpAddress::V4(127, 0, 0, 1), port: local_port },
        remote_address: SocketAddress { ip: IpAddress::V4(127, 0, 0, 1), port: remote_port },
    }
}

#[test]
fn connectivity_no_trickle() {
    let first_states: Arc<Mutex<Vec<State>>> = Arc::new(Mutex::new(Vec::new()));
    let first_gathered: Arc<Mutex<u32>> = Arc::new(Mutex::new(0));
    let first_rx: Arc<Mutex<Vec<Vec<u8>>>> = Arc::new(Mutex::new(Vec::new()));
    let first_handler = libjuice_rs::empty_handler()
        .state_handler({
            let log = first_states.clone();
            move |s| log.lock().unwrap().push(s)
        })
        .gathering_done_handler({
            let count = first_gathered.clone();
            move || *count.lock().unwrap() += 1
        })
        .recv_handler({
            let log = first_rx.clone();
            move |packet: &[u8]| log.lock().unwrap().push(packet.to_vec())
        });

    let second_states: Arc<Mutex<Vec<State>>> = Arc::new(Mutex::new(Vec::new()));
    let second_gathered: Arc<Mutex<u32>> = Arc::new(Mutex::new(0));
    let second_rx: Arc<Mutex<Vec<Vec<u8>>>> = Arc::new(Mutex::new(Vec::new()));
    let second_handler = libjuice_rs::empty_handler()
        .state_handler({
            let log = second_states.clone();
            move |s| log.lock().unwrap().push(s)
        })
        .gathering_done_handler({
            let count = second_gathered.clone();
            move || *count.lock().unwrap() += 1
        })
        .recv_handler({
            let log = second_rx.clone();
            move |packet: &[u8]| log.lock().unwrap().push(packet.to_vec())
        });

    let mut first = Agent::builder(first_handler)
        .with_local_credentials("ufrag-first:pwd-first".to_string())
        .build()
        .unwrap();
    let mut second = Agent::builder(second_handler)
        .with_local_credentials("ufrag-second:pwd-second".to_string())
        .with_port_range(5000, 5010)
        .build()
        .unwrap();

    first.gather_candidates().unwrap();
    second.gather_candidates().unwrap();

    // The engine discovers one host candidate on each side, then finishes.
    first.engine_candidate_found("candidate 1 udp host 127.0.0.1 40000".to_string());
    second.engine_candidate_found("candidate 1 udp host 127.0.0.1 5000".to_string());
    first.engine_gathering_done();
    second.engine_gathering_done();
    assert_eq!(*first_gathered.lock().unwrap(), 1, "first agent finished gathering");
    assert_eq!(*second_gathered.lock().unwrap(), 1, "second agent finished gathering");

    // Full descriptions are exchanged once gathering is complete.
    let first_desc = first.get_local_description().unwrap();
    second.set_remote_description(first_desc).unwrap();
    let second_desc = second.get_local_description().unwrap();
    first.set_remote_description(second_desc).unwrap();

    // Connectivity checks run and settle on both sides.
    first.engine_state_changed(State::Connecting);
    first.engine_state_changed(State::Connected);
    second.engine_state_changed(State::Connecting);
    second.engine_state_changed(State::Connected);
    first.engine_pair_selected(pair_for(
        "candidate 1 udp host 127.0.0.1 40000",
        "candidate 1 udp host 127.0.0.1 5000",
        40000,
        5000,
    ));
    second.engine_pair_selected(pair_for(
        "candidate 1 udp host 127.0.0.1 5000",
        "candidate 1 udp host 127.0.0.1 40000",
        5000,
        40000,
    ));
    first.engine_state_changed(State::Completed);
    second.engine_state_changed(State::Completed);

    assert_eq!(first.get_state(), State::Completed);
    assert_eq!(second.get_state(), State::Completed);
    assert!(first.get_selected_candidates().is_some(), "first selected candidates");
    assert!(second.get_selected_candidates().is_some(), "second selected candidates");
    assert!(first.get_selected_addresses().is_some(), "first selected addresses");
    assert!(second.get_selected_addresses().is_some(), "second selected addresses");

    // Datagrams round-trip bit for bit over the loopback.
    first.send("hello".as_bytes()).unwrap();
    second.engine_packet_received("hello".as_bytes());
    assert_eq!(second_rx.lock().unwrap().as_slice(), &["hello".as_bytes().to_vec()]);

    second.send("world".as_bytes()).unwrap();
    first.engine_packet_received("world".as_bytes());
    assert_eq!(first_rx.lock().unwrap().as_slice(), &["world".as_bytes().to_vec()]);

    // Every state change was reported, in order, exactly once each.
    assert_eq!(
        first_states.lock().unwrap().as_slice(),
        &[State::Gathering, State::Connecting, State::Connected, State::Completed],
    );
    assert_eq!(
        second_states.lock().unwrap().as_slice(),
        &[State::Gathering, State::Connecting, State::Connected, State::Completed],
    );
}

#[test]
fn connectivity_trickle() {
    let first_candidates: Arc<Mutex<Vec<String>>> = Arc::new(Mutex::new(Vec::new()));
    let first_rx: Arc<Mutex<Vec<Vec<u8>>>> = Arc::new(Mutex::new(Vec::new()));
    let first_handler = libjuice_rs::empty_handler()
        .candidate_handler({
            let log = first_candidates.clone();
            move |sdp| log.lock().unwrap().push(sdp)
        })
        .recv_handler({
            let log = first_rx.clone();
            move |packet: &[u8]| log.lock().unwrap().push(packet.to_vec())
        });

    let second_candidates: Arc<Mutex<Vec<String>>> = Arc::new(Mutex::new(Vec::new()));
    let second_rx: Arc<Mutex<Vec<Vec<u8>>>> = Arc::new(Mutex::new(Vec::new()));
    let second_handler = libjuice_rs::empty_handler()
        .candidate_handler({
            let log = second_candidates.clone();
            move |sdp| log.lock().unwrap().push(sdp)
        })
        .recv_handler({
            let log = second_rx.clone();
            move |packet: &[u8]| log.lock().unwrap().push(packet.to_vec())
        });

    let mut first = Agent::builder(first_handler)
        .with_local_credentials("ufrag-first:pwd-first".to_string())
        .with_bind_address(IpAddress::V4(127, 0, 0, 1))
        .build()
        .unwrap();
    let mut second = Agent::builder(second_handler)
        .with_local_credentials("ufrag-second:pwd-second".to_string())
        .build()
        .unwrap();

    // Trickle mode: descriptions are exchanged before gathering starts, so
    // they carry no candidates yet.
    let first_desc = first.get_local_description().unwrap();
    assert!(first_desc.candidates.is_empty());
    second.set_remote_description(first_desc).unwrap();
    let second_desc = second.get_local_description().unwrap();
    assert!(second_desc.candidates.is_empty());
    first.set_remote_description(second_desc).unwrap();

    // And then gathering starts; each discovered candidate is relayed to
    // the peer as it arrives.
    first.gather_candidates().unwrap();
    second.gather_candidates().unwrap();
    first.engine_candidate_found("candidate 1 udp host 127.0.0.1 40000".to_string());
    second.engine_candidate_found("candidate 1 udp host 127.0.0.1 40001".to_string());
    for sdp in first_candidates.lock().unwrap().iter() {
        second.add_remote_candidate(sdp.clone()).unwrap();
    }
    for sdp in second_candidates.lock().unwrap().iter() {
        first.add_remote_candidate(sdp.clone()).unwrap();
    }
    first.engine_gathering_done();
    second.engine_gathering_done();
    second.set_remote_gathering_done().unwrap();
    first.set_remote_gathering_done().unwrap();

    first.engine_state_changed(State::Connecting);
    first.engine_state_changed(State::Connected);
    second.engine_state_changed(State::Connecting);
    second.engine_state_changed(State::Connected);
    first.engine_pair_selected(pair_for(
        "candidate 1 udp host 127.0.0.1 40000",
        "candidate 1 udp host 127.0.0.1 40001",
        40000,
        40001,
    ));
    second.engine_pair_selected(pair_for(
        "candidate 1 udp host 127.0.0.1 40001",
        "candidate 1 udp host 127.0.0.1 40000",
        40001,
        40000,
    ));

    assert!(matches!(first.get_state(), State::Connected | State::Completed));
    assert!(matches!(second.get_state(), State::Connected | State::Completed));
    assert!(first.get_selected_candidates().is_some(), "first selected candidates");
    assert!(second.get_selected_candidates().is_some(), "second selected candidates");
    assert!(first.get_selected_addresses().is_some(), "first selected addresses");
    assert!(second.get_selected_addresses().is_some(), "second selected addresses");

    first.send("hello".as_bytes()).unwrap();
    second.engine_packet_received("hello".as_bytes());
    assert_eq!(second_rx.lock().unwrap().as_slice(), &["hello".as_bytes().to_vec()]);

    second.send("world".as_bytes()).unwrap();
    first.engine_packet_received("world".as_bytes());
    assert_eq!(first_rx.lock().unwrap().as_slice(), &["world".as_bytes().to_vec()]);
}

#[test]
fn path_loss_clears_selected_pair() {
    let mut agent = Agent::builder(libjuice_rs::empty_handler())
        .with_local_credentials("ufrag:pwd".to_string())
        .build()
        .unwrap();
    agent.gather_candidates().unwrap();
    agent.engine_gathering_done();
    agent
        .set_remote_description(Description {
            credentials: "peer:pwd".to_string(),
            candidates: vec!["candidate 1 udp host 127.0.0.1 1000".to_string()],
        })
        .unwrap();
    agent.engine_state_changed(State::Connecting);
    agent.engine_state_changed(State::Connected);
    agent.engine_pair_selected(pair_for("a", "b", 1, 2));
    assert!(agent.get_selected_candidates().is_some());
    assert!(agent.send(b"ping").is_ok());

    agent.engine_state_changed(State::Disconnected);
    assert_eq!(agent.get_state(), State::Disconnected);
    assert!(agent.get_selected_candidates().is_none());
    assert!(agent.get_selected_addresses().is_none());
    assert_eq!(agent.send(b"ping"), Err(libjuice_rs::Error::NotConnected));
}
