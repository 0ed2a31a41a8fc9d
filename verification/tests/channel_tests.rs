use tankview::channel::{SnapshotChannel, CHANNEL_DEPTH};
use tankview::pose::{BotPose, WorldSnapshot};

fn snapshot_with(x: i32) -> WorldSnapshot {
    let mut s = WorldSnapshot::new();
    s.push_pose(BotPose { x, y: 0, heading: 0, turret_offset: 0 });
    s
}

/// The producer is refused exactly when N snapshots are unconsumed, for the
/// smallest bound N = 1.
#[test]
fn producer_blocked_at_capacity_one() {
    let mut ch = SnapshotChannel::new(1);
    assert_eq!(ch.capacity(), 1);
    assert!(ch.try_send(snapshot_with(1)).is_ok());
    let refused = ch.try_send(snapshot_with(2));
    match refused {
        Ok(()) => panic!("send into a full channel must be refused"),
        Err(back) => {
            // The refused snapshot comes back intact.
            assert_eq!(back.bot_count(), 1);
            assert_eq!(back.pose_at(0).x, 2);
        }
    }
    // Draining frees the slot.
    assert!(ch.poll().is_some());
    assert!(ch.try_send(snapshot_with(3)).is_ok());
}

/// The producer is refused exactly when N snapshots are unconsumed, at the
/// configured depth N = 8.
#[test]
fn producer_blocked_at_configured_depth() {
    let mut ch = SnapshotChannel::new(CHANNEL_DEPTH);
    for i in 0..CHANNEL_DEPTH {
        assert_eq!(ch.queued(), i);
        assert!(ch.try_send(snapshot_with(i as i32)).is_ok());
    }
    assert_eq!(ch.queued(), CHANNEL_DEPTH);
    assert!(ch.try_send(snapshot_with(99)).is_err());
    assert_eq!(ch.queued(), CHANNEL_DEPTH);
}

/// A poll returns at once in every producer state: empty, partly filled, full.
/// It hands out the oldest snapshot, exactly once, in send order.
#[test]
fn poll_never_blocks_and_preserves_order() {
    let mut ch = SnapshotChannel::new(3);
    assert!(ch.poll().is_none());
    assert!(ch.try_send(snapshot_with(10)).is_ok());
    assert!(ch.try_send(snapshot_with(20)).is_ok());
    assert!(ch.try_send(snapshot_with(30)).is_ok());
    // Full channel: poll still returns immediately, oldest first.
    for expected in [10, 20, 30] {
        let got = ch.poll().expect("a queued snapshot");
        assert_eq!(got.pose_at(0).x, expected);
    }
    // Drained: "no update" is a normal outcome, not an error.
    assert!(ch.poll().is_none());
    assert!(ch.poll().is_none());
}

/// Draining hands out every queued snapshot exactly once, in send order, and
/// leaves the channel empty.
#[test]
fn drain_returns_all_snapshots_in_send_order() {
    let mut ch = SnapshotChannel::new(4);
    for x in [3, 1, 4, 1] {
        assert!(ch.try_send(snapshot_with(x)).is_ok());
    }
    let all = ch.drain();
    let xs: Vec<i32> = all.iter().map(|s| s.pose_at(0).x).collect();
    assert_eq!(xs, vec![3, 1, 4, 1]);
    assert_eq!(ch.queued(), 0);
    assert!(ch.poll().is_none());
    // The slots are free again.
    assert!(ch.try_send(snapshot_with(9)).is_ok());
}
