use zygote::fd::{SideChannel, WireFd};
use zygote::fds::SendableFd;

#[test]
fn push_returns_the_index() {
    let mut channel = SideChannel::new();
    assert_eq!(channel.push_fd(10), 0);
    assert_eq!(channel.push_fd(11), 1);
    assert_eq!(channel.push_fd(10), 2);
    assert_eq!(channel.pending(), 3);
}

#[test]
fn a_descriptor_is_claimed_once() {
    let mut channel = SideChannel::new();
    channel.push_fd(10);
    channel.push_fd(11);
    assert_eq!(channel.take_fd(1), Some(11));
    assert_eq!(channel.take_fd(1), None);
    assert_eq!(channel.take_fd(2), None);
    assert_eq!(channel.pending(), 1);
    assert_eq!(channel.take_fd(0), Some(10));
    assert_eq!(channel.pending(), 0);
}

#[test]
fn swap_returns_what_was_not_claimed() {
    let mut channel = SideChannel::new();
    channel.push_fd(1);
    channel.push_fd(2);
    channel.push_fd(3);
    assert_eq!(channel.take_fd(1), Some(2));

    let unclaimed = channel.swap_fds(vec![7, 8]);

    assert_eq!(unclaimed, vec![1, 3]);
    assert_eq!(channel.take_fd(0), Some(7));
    assert_eq!(channel.take_fd(1), Some(8));
    assert_eq!(channel.swap_fds(vec![]), Vec::<i32>::new());
    assert_eq!(channel.take_fd(0), None);
}

#[test]
fn a_transfer_ends_clean_when_all_was_claimed() {
    let mut channel = SideChannel::new();
    assert_eq!(channel.end_transfer(), Ok(()));
    assert_eq!(channel.swap_fds(vec![4, 5, 6]), Vec::<i32>::new());
    assert_eq!(channel.take_fd(2), Some(6));
    assert_eq!(channel.take_fd(0), Some(4));
    assert_eq!(channel.take_fd(2), None);
    assert_eq!(channel.take_fd(1), Some(5));
    assert_eq!(channel.end_transfer(), Ok(()));
    assert_eq!(channel.push_fd(7), 0);
}

#[test]
fn a_transfer_hands_its_orphans_back() {
    let mut channel = SideChannel::new();
    channel.push_fd(4);
    channel.push_fd(5);
    channel.push_fd(6);
    channel.take_fd(1);
    assert_eq!(channel.end_transfer(), Err(vec![4, 6]));
    assert_eq!(channel.pending(), 0);
    assert_eq!(channel.end_transfer(), Ok(()));
    assert_eq!(channel.push_fd(6), 0);
}

#[test]
fn a_transfer_begins_without_slots() {
    let mut channel = SideChannel::new();
    channel.push_fd(4);
    channel.push_fd(5);
    channel.take_fd(0);
    channel.take_fd(1);
    assert_eq!(channel.pending(), 0);
    channel.begin_transfer();
    assert_eq!(channel.push_fd(9), 0);
    assert_eq!(channel.take_fd(0), Some(9));
}

#[test]
fn wire_fd_wraps() {
    let wrapped = WireFd::new(String::from("socket"));
    assert_eq!(wrapped.get(), "socket");
    assert_eq!(wrapped.into_inner(), "socket");
    let converted: WireFd<i32> = WireFd::from(3);
    assert_eq!(converted.into_inner(), 3);
    let converted: WireFd<u8> = 4u8.into();
    assert_eq!(*converted.get(), 4);
}

#[test]
fn sendable_fd_wraps() {
    let wrapped = SendableFd::new(vec![1u8, 2]);
    assert_eq!(wrapped.get(), &vec![1u8, 2]);
    assert_eq!(wrapped.into_inner(), vec![1u8, 2]);
    let converted: SendableFd<i32> = SendableFd::from(3);
    assert_eq!(converted.into_inner(), 3);
}

#[test]
fn wire_fd_travels_as_an_index() {
    let mut channel = SideChannel::new();
    let first = WireFd::new(40);
    let second = WireFd::new(41);
    assert_eq!(first.serialize(&mut channel), 0);
    assert_eq!(second.serialize(&mut channel), 1);

    let sent = channel.swap_fds(vec![]);
    assert_eq!(sent, vec![40, 41]);
    let received: Vec<i32> = vec![90, 91];
    assert_eq!(channel.swap_fds(received), Vec::<i32>::new());

    assert_eq!(WireFd::deserialize(1, &mut channel).into_inner(), 91);
    assert_eq!(WireFd::deserialize(0, &mut channel).into_inner(), 90);
    assert_eq!(channel.end_transfer(), Ok(()));
}

#[test]
fn sendable_fd_travels_as_an_index() {
    let mut channel = SideChannel::new();
    let fd = SendableFd::new(12);
    assert_eq!(fd.serialize(&mut channel), 0);
    assert_eq!(channel.pending(), 1);
    assert_eq!(SendableFd::deserialize(0, &mut channel).into_inner(), 12);
    assert_eq!(channel.pending(), 0);
}
