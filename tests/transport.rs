use eth_ring::device::{Checksum, EthDevice, FrameTooLong, Instant, Medium};
use eth_ring::handler::{EthHandler, RelayReport, UnboundChannel};
use eth_ring::{Channel, SharedRegion, MTU, RX_BUF_SIZE, TX_BUF_SIZE};

const DRIVER: Channel = Channel { index: 2 };

fn setup() -> (EthHandler, EthDevice, SharedRegion) {
    let mut shared = SharedRegion::new();
    let handler = EthHandler::new(DRIVER, &mut shared);
    let device = EthDevice::new(DRIVER);
    (handler, device, shared)
}

fn now() -> Instant {
    Instant { micros: 100_000 }
}

fn send(device: &EthDevice, shared: &mut SharedRegion, bytes: &[u8]) {
    let tx = device.transmit(shared, now()).expect("a free TX buffer");
    assert_eq!(tx.consume(shared, bytes), Ok(DRIVER));
}

#[test]
fn seeding_puts_every_slot_on_the_free_rings() {
    let (_h, _d, shared) = setup();
    assert_eq!(shared.tx.free_len(), TX_BUF_SIZE);
    assert_eq!(shared.rx.free_len(), RX_BUF_SIZE);
    assert_eq!(shared.tx.used_len(), 0);
    assert_eq!(shared.rx.used_len(), 0);
    for i in 0..TX_BUF_SIZE {
        let d = shared.tx.free_at(i);
        assert_eq!(d.encoded_addr, i);
        assert_eq!(d.len, MTU as u32);
        assert_eq!(shared.tx.frame_of(i).len(), 0);
    }
}

#[test]
fn transmit_consume_publishes_one_descriptor_and_one_notification() {
    let (_h, device, mut shared) = setup();
    let mut notifications = 0;
    let tx = device.transmit(&mut shared, now()).expect("token");
    let slot = tx.desc.encoded_addr;
    assert_eq!(slot, 0);
    if let Ok(ch) = tx.consume(&mut shared, b"PING") {
        assert_eq!(ch, DRIVER);
        notifications += 1;
    }
    assert_eq!(notifications, 1);
    assert_eq!(shared.tx.used_len(), 1);
    assert_eq!(shared.tx.used_at(0).encoded_addr, slot);
    assert_eq!(shared.tx.free_len(), 3);
    assert_eq!(shared.tx.frame_of(slot), b"PING");
}

#[test]
fn relay_with_no_rx_buffer_drops_frame_and_frees_tx_slot() {
    let (handler, device, mut shared) = setup();
    // Fill every RX buffer so that the RX free ring is empty.
    for _ in 0..RX_BUF_SIZE {
        send(&device, &mut shared, b"fill");
        let report = handler.notified(&mut shared, DRIVER).unwrap();
        assert_eq!(report, RelayReport { relayed: 1, dropped: 0 });
    }
    assert_eq!(shared.rx.free_len(), 0);
    assert_eq!(shared.rx.used_len(), RX_BUF_SIZE);
    let rx_used_before: Vec<usize> = (0..RX_BUF_SIZE).map(|i| shared.rx.used_at(i).encoded_addr).collect();

    send(&device, &mut shared, b"lost");
    let tx_slot = shared.tx.used_at(0).encoded_addr;
    let report = handler.notified(&mut shared, DRIVER).unwrap();
    assert_eq!(report, RelayReport { relayed: 0, dropped: 1 });
    assert_eq!(shared.tx.used_len(), 0);
    assert_eq!(shared.tx.free_len(), TX_BUF_SIZE);
    assert_eq!(shared.tx.free_at(TX_BUF_SIZE - 1).encoded_addr, tx_slot);
    let rx_used_after: Vec<usize> = (0..RX_BUF_SIZE).map(|i| shared.rx.used_at(i).encoded_addr).collect();
    assert_eq!(rx_used_before, rx_used_after);
}

#[test]
fn relay_copies_frame_into_rx_buffer() {
    let (handler, device, mut shared) = setup();
    send(&device, &mut shared, b"hello");
    let tx_slot = shared.tx.used_at(0).encoded_addr;
    let rx_slot = shared.rx.free_at(0).encoded_addr;
    let report = handler.notified(&mut shared, DRIVER).unwrap();
    assert_eq!(report, RelayReport { relayed: 1, dropped: 0 });
    assert_eq!(shared.rx.used_len(), 1);
    assert_eq!(shared.rx.used_at(0).encoded_addr, rx_slot);
    assert_eq!(shared.rx.frame_of(rx_slot), shared.tx.frame_of(tx_slot));
    assert_eq!(shared.rx.frame_of(rx_slot), b"hello");
    assert_eq!(shared.tx.free_len(), TX_BUF_SIZE);
    assert_eq!(shared.tx.free_at(TX_BUF_SIZE - 1).encoded_addr, tx_slot);
}

#[test]
fn receive_without_tx_capacity_leaves_rx_used_alone() {
    let (handler, device, mut shared) = setup();
    send(&device, &mut shared, b"data");
    handler.notified(&mut shared, DRIVER).unwrap();
    assert_eq!(shared.rx.used_len(), 1);
    let held: Vec<_> = (0..TX_BUF_SIZE).map(|_| device.transmit(&mut shared, now()).unwrap()).collect();
    assert_eq!(shared.tx.free_len(), 0);
    assert!(device.receive(&mut shared, now()).is_none());
    assert_eq!(shared.rx.used_len(), 1);
    assert_eq!(shared.rx.frame_of(shared.rx.used_at(0).encoded_addr), b"data");
    for t in held {
        t.abandon(&mut shared);
    }
    assert_eq!(shared.tx.free_len(), TX_BUF_SIZE);
}

#[test]
fn receive_on_empty_rx_used_is_none() {
    let (_h, device, mut shared) = setup();
    assert!(device.receive(&mut shared, now()).is_none());
    assert_eq!(shared.tx.free_len(), TX_BUF_SIZE);
    assert_eq!(shared.rx.free_len(), RX_BUF_SIZE);
}

#[test]
fn frame_round_trip_is_exact_length() {
    let (handler, device, mut shared) = setup();
    send(&device, &mut shared, &[1, 2, 3]);
    handler.notified(&mut shared, DRIVER).unwrap();
    let (rx, tx) = device.receive(&mut shared, now()).expect("a frame");
    let bytes = rx.consume();
    assert_eq!(bytes.as_slice(), &[1, 2, 3]);
    // The RX slot went straight back to the free ring.
    assert_eq!(shared.rx.used_len(), 0);
    assert_eq!(shared.rx.free_len(), RX_BUF_SIZE);
    // The companion TX token is a normal one.
    assert_eq!(shared.tx.free_len(), TX_BUF_SIZE - 1);
    tx.abandon(&mut shared);
    assert_eq!(shared.tx.free_len(), TX_BUF_SIZE);
}

#[test]
fn abandoning_a_token_returns_its_slot_and_clears_it() {
    let (_h, device, mut shared) = setup();
    send(&device, &mut shared, b"old");
    // Recycle nothing: slot 0 is on the used ring. Claim slot 1 and abandon it.
    let tx = device.transmit(&mut shared, now()).unwrap();
    let slot = tx.desc.encoded_addr;
    assert_eq!(slot, 1);
    assert_eq!(shared.tx.free_len() + shared.tx.used_len(), TX_BUF_SIZE - 1);
    tx.abandon(&mut shared);
    assert_eq!(shared.tx.free_len() + shared.tx.used_len(), TX_BUF_SIZE);
    assert_eq!(shared.tx.free_at(shared.tx.free_len() - 1).encoded_addr, slot);
    assert_eq!(shared.tx.frame_of(slot).len(), 0);
    assert_eq!(shared.tx.used_len(), 1);
}

#[test]
fn oversized_frame_is_refused_and_slot_returned() {
    let (_h, device, mut shared) = setup();
    let tx = device.transmit(&mut shared, now()).unwrap();
    let slot = tx.desc.encoded_addr;
    let big = vec![7u8; MTU + 1];
    assert_eq!(tx.consume(&mut shared, &big), Err(FrameTooLong));
    assert_eq!(shared.tx.used_len(), 0);
    assert_eq!(shared.tx.free_len(), TX_BUF_SIZE);
    assert_eq!(shared.tx.frame_of(slot).len(), 0);
}

#[test]
fn full_mtu_frame_is_accepted() {
    let (_h, device, mut shared) = setup();
    let tx = device.transmit(&mut shared, now()).unwrap();
    let slot = tx.desc.encoded_addr;
    let big = vec![9u8; MTU];
    assert_eq!(tx.consume(&mut shared, &big), Ok(DRIVER));
    assert_eq!(shared.tx.frame_of(slot).len(), MTU);
}

#[test]
fn transmit_on_exhausted_pool_is_none() {
    let (_h, device, mut shared) = setup();
    let mut held = Vec::new();
    for _ in 0..TX_BUF_SIZE {
        held.push(device.transmit(&mut shared, now()).unwrap());
    }
    assert!(device.transmit(&mut shared, now()).is_none());
    let slots: Vec<usize> = held.iter().map(|t| t.desc.encoded_addr).collect();
    assert_eq!(slots, vec![0, 1, 2, 3]);
    for t in held {
        t.abandon(&mut shared);
    }
}

#[test]
fn one_notification_drains_every_sent_frame() {
    let (handler, device, mut shared) = setup();
    send(&device, &mut shared, b"a");
    send(&device, &mut shared, b"bb");
    send(&device, &mut shared, b"ccc");
    let report = handler.notified(&mut shared, DRIVER).unwrap();
    assert_eq!(report, RelayReport { relayed: 3, dropped: 0 });
    assert_eq!(shared.tx.used_len(), 0);
    assert_eq!(shared.rx.used_len(), 3);
    let mut got = Vec::new();
    while let Some((rx, tx)) = device.receive(&mut shared, now()) {
        got.push(rx.consume().as_slice().to_vec());
        tx.abandon(&mut shared);
    }
    assert_eq!(got, vec![b"a".to_vec(), b"bb".to_vec(), b"ccc".to_vec()]);
}

#[test]
fn more_frames_than_rx_buffers_drops_the_rest() {
    let (handler, device, mut shared) = setup();
    // Take two RX buffers out of circulation by relaying two frames.
    send(&device, &mut shared, b"1");
    send(&device, &mut shared, b"2");
    handler.notified(&mut shared, DRIVER).unwrap();
    for _ in 0..TX_BUF_SIZE {
        send(&device, &mut shared, b"x");
    }
    let report = handler.notified(&mut shared, DRIVER).unwrap();
    assert_eq!(report, RelayReport { relayed: 2, dropped: 2 });
    assert_eq!(shared.rx.free_len(), 0);
    assert_eq!(shared.rx.used_len(), RX_BUF_SIZE);
    assert_eq!(shared.tx.free_len(), TX_BUF_SIZE);
}

#[test]
fn notification_on_other_channel_is_refused() {
    let (handler, device, mut shared) = setup();
    send(&device, &mut shared, b"z");
    assert_eq!(handler.notified(&mut shared, Channel::new(9)), Err(UnboundChannel));
    assert_eq!(shared.tx.used_len(), 1);
    assert_eq!(shared.rx.used_len(), 0);
}

#[test]
fn notification_with_nothing_sent_changes_nothing() {
    let (handler, _device, mut shared) = setup();
    assert_eq!(handler.notified(&mut shared, DRIVER), Ok(RelayReport { relayed: 0, dropped: 0 }));
    assert_eq!(shared.tx.free_len(), TX_BUF_SIZE);
    assert_eq!(shared.rx.free_len(), RX_BUF_SIZE);
}

#[test]
fn conservation_holds_through_a_session() {
    let (handler, device, mut shared) = setup();
    for round in 0..10u8 {
        send(&device, &mut shared, &[round; 5]);
        if round % 3 == 0 {
            handler.notified(&mut shared, DRIVER).unwrap();
        }
        if let Some((rx, tx)) = device.receive(&mut shared, now()) {
            let _ = rx.consume();
            tx.abandon(&mut shared);
        }
        assert_eq!(shared.tx.free_len() + shared.tx.used_len(), TX_BUF_SIZE);
        assert_eq!(shared.rx.free_len() + shared.rx.used_len(), RX_BUF_SIZE);
        let mut seen = vec![false; TX_BUF_SIZE];
        for i in 0..shared.tx.free_len() {
            let s = shared.tx.free_at(i).encoded_addr;
            assert!(!seen[s]);
            seen[s] = true;
        }
        for i in 0..shared.tx.used_len() {
            let s = shared.tx.used_at(i).encoded_addr;
            assert!(!seen[s]);
            seen[s] = true;
        }
    }
}

#[test]
fn capabilities_report_plain_ethernet() {
    let device = EthDevice::new(DRIVER);
    let caps = device.capabilities();
    assert_eq!(caps.medium, Medium::Ethernet);
    assert_eq!(caps.max_transmission_unit, 1500);
    assert_eq!(caps.max_burst_size, None);
    assert_eq!(caps.checksum.ipv4, Checksum::Neither);
    assert_eq!(caps.checksum.udp, Checksum::Neither);
    assert_eq!(caps.checksum.tcp, Checksum::Neither);
    assert_eq!(caps.checksum.icmpv4, Checksum::Neither);
}

#[test]
fn loopback_returns_the_payload() {
    let (handler, device, mut shared) = setup();
    let got = eth_ring::loopback::ethernet_loopback(&device, &handler, &mut shared, b"PING", now());
    assert_eq!(got.expect("frame back").as_slice(), b"PING");
    assert_eq!(shared.tx.free_len(), TX_BUF_SIZE);
    assert_eq!(shared.rx.free_len(), RX_BUF_SIZE);
}

#[test]
fn loopback_without_tx_buffer_is_none() {
    let (handler, device, mut shared) = setup();
    let held: Vec<_> = (0..TX_BUF_SIZE).map(|_| device.transmit(&mut shared, now()).unwrap()).collect();
    assert!(eth_ring::loopback::ethernet_loopback(&device, &handler, &mut shared, b"PING", now()).is_none());
    for t in held {
        t.abandon(&mut shared);
    }
}
