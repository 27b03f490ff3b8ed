use mic_capture::config::{CaptureError, MicConfig};
use mic_capture::frame::Frame;
use mic_capture::node::{capture_node, frame_or_silence, FrameSender, MicNode};

fn bridge(channels: u16) -> (FrameSender, MicNode) {
    capture_node(&MicConfig { channels, sample_rate: 48000 }).unwrap()
}

#[test]
fn construction_supported_arities() {
    for channels in [1u16, 2u16] {
        let (sender, node) = bridge(channels);
        assert_eq!(node.outputs(), channels as usize);
        assert_eq!(node.inputs(), 0);
        assert_eq!(sender.channels(), channels as usize);
    }
}

#[test]
fn construction_rejects_unsupported_channel_counts() {
    for channels in [0u16, 3u16, 4u16, 255u16] {
        let cfg = MicConfig { channels, sample_rate: 48000 };
        let err = capture_node(&cfg).err().unwrap();
        assert_eq!(err, CaptureError::UnsupportedChannelCount);
    }
}

#[test]
fn empty_queue_tick_is_silence() {
    let (_sender, mut node) = bridge(2);
    assert_eq!(node.tick().into_samples(), vec![0u32, 0u32]);
    let (_sender1, mut node1) = bridge(1);
    assert_eq!(node1.tick().into_samples(), vec![0u32]);
}

#[test]
fn empty_queue_block_is_silence() {
    let (_sender, mut node) = bridge(1);
    assert_eq!(node.process(4), vec![vec![0u32, 0, 0, 0]]);
    assert_eq!(node.process(0), vec![Vec::<u32>::new()]);
    let (_sender2, mut node2) = bridge(2);
    assert_eq!(node2.process(3), vec![vec![0u32, 0, 0], vec![0u32, 0, 0]]);
}

#[test]
fn frame_or_silence_passes_frame_through() {
    let f = Frame::from_samples(vec![5u32, 6u32]);
    assert_eq!(frame_or_silence(Some(f), 2).into_samples(), vec![5u32, 6u32]);
    assert_eq!(frame_or_silence(None, 2).into_samples(), vec![0u32, 0u32]);
}

#[test]
fn partial_trailing_samples_are_dropped() {
    let (sender, mut node) = bridge(2);
    let (queued, attached) = sender.deliver(&vec![10u32, 20, 30, 40, 50]);
    assert_eq!(queued, 2);
    assert!(attached);
    assert_eq!(node.tick().into_samples(), vec![10u32, 20]);
    assert_eq!(node.tick().into_samples(), vec![30u32, 40]);
    // the trailing 50 never forms a frame: the queue is empty again
    assert_eq!(node.tick().into_samples(), vec![0u32, 0]);
}

#[test]
fn frames_keep_delivery_order() {
    let (sender, mut node) = bridge(2);
    sender.deliver(&vec![1u32, 2]);
    sender.deliver(&vec![3u32, 4, 5, 6]);
    assert_eq!(node.tick().into_samples(), vec![1u32, 2]);
    assert_eq!(node.tick().into_samples(), vec![3u32, 4]);
    assert_eq!(node.tick().into_samples(), vec![5u32, 6]);
}

#[test]
fn block_pull_pads_short_queue_with_silence() {
    let (sender, mut node) = bridge(2);
    let (queued, _) = sender.deliver(&vec![7u32, 8, 9, 10]);
    assert_eq!(queued, 2);
    let out = node.process(3);
    assert_eq!(out, vec![vec![7u32, 9, 0], vec![8u32, 10, 0]]);
}

#[test]
fn block_pull_drains_in_order() {
    let (sender, mut node) = bridge(1);
    sender.deliver(&vec![11u32, 12, 13]);
    assert_eq!(node.process(2), vec![vec![11u32, 12]]);
    assert_eq!(node.process(2), vec![vec![13u32, 0]]);
}

#[test]
fn deliver_counts_whole_frames_only() {
    let (sender, _node) = bridge(2);
    assert_eq!(sender.deliver(&vec![1u32; 7]), (3, true));
    // deliveries holding no whole frame make no send and always succeed
    assert_eq!(sender.deliver(&vec![1u32]), (0, true));
    assert_eq!(sender.deliver(&Vec::new()), (0, true));
}

#[test]
fn deliver_stops_quietly_once_the_consumer_is_gone() {
    let (sender, node) = bridge(2);
    drop(node);
    let (queued, all_queued) = sender.deliver(&vec![5u32, 6]);
    assert_eq!(queued, 0);
    assert!(!all_queued);
}

#[test]
fn id_ignores_configuration_values() {
    let a = MicConfig { channels: 1, sample_rate: 48000 };
    let b = MicConfig { channels: 2, sample_rate: 44100 };
    assert_eq!(a.id(), b.id());
}

#[test]
fn id_is_the_name_based_uuid_of_the_type_name() {
    let cfg = MicConfig { channels: 1, sample_rate: 48000 };
    let expected =
        uuid::Uuid::new_v5(&uuid::Uuid::NAMESPACE_OID, b"mic_capture::MicConfig").as_u128();
    assert_eq!(cfg.id(), expected);
}
