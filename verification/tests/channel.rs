use balatro_tui::channel::{ActionChannel, SendError, TryRecvError};
use balatro_tui::components::optionselector::Actions;

#[test]
fn messages_come_out_in_the_order_sent() {
    let mut channel = ActionChannel::new();
    for n in [3, 1, 4, 1, 5] {
        assert_eq!(channel.send(Actions::Selected(n)), Ok(()));
    }
    assert_eq!(channel.len(), 5);
    for n in [3, 1, 4, 1, 5] {
        assert_eq!(channel.try_recv(), Ok(Actions::Selected(n)));
    }
    assert_eq!(channel.len(), 0);
}

#[test]
fn an_empty_open_channel_answers_empty() {
    let mut channel = ActionChannel::new();
    assert_eq!(channel.len(), 0);
    assert_eq!(channel.try_recv(), Err(TryRecvError::Empty));
    assert_eq!(channel.send(Actions::Selected(7)), Ok(()));
    assert_eq!(channel.try_recv(), Ok(Actions::Selected(7)));
    assert_eq!(channel.try_recv(), Err(TryRecvError::Empty));
}

#[test]
fn a_closed_channel_delivers_what_is_queued_and_then_disconnects() {
    let mut channel = ActionChannel::new();
    assert_eq!(channel.send(Actions::Selected(1)), Ok(()));
    assert_eq!(channel.send(Actions::Selected(2)), Ok(()));
    channel.close();
    assert_eq!(channel.len(), 2);
    assert_eq!(channel.try_recv(), Ok(Actions::Selected(1)));
    assert_eq!(channel.try_recv(), Ok(Actions::Selected(2)));
    assert_eq!(channel.try_recv(), Err(TryRecvError::Disconnected));
    assert_eq!(channel.try_recv(), Err(TryRecvError::Disconnected));
}

#[test]
fn sending_on_a_closed_channel_fails_and_queues_nothing() {
    let mut channel = ActionChannel::new();
    channel.close();
    assert_eq!(channel.send(Actions::Selected(9)), Err(SendError));
    assert_eq!(channel.len(), 0);
    assert_eq!(channel.try_recv(), Err(TryRecvError::Disconnected));
}

#[test]
fn sends_and_receives_may_interleave() {
    let mut channel = ActionChannel::new();
    assert_eq!(channel.send(Actions::Selected(10)), Ok(()));
    assert_eq!(channel.send(Actions::Selected(20)), Ok(()));
    assert_eq!(channel.try_recv(), Ok(Actions::Selected(10)));
    assert_eq!(channel.send(Actions::Selected(30)), Ok(()));
    assert_eq!(channel.len(), 2);
    assert_eq!(channel.try_recv(), Ok(Actions::Selected(20)));
    assert_eq!(channel.try_recv(), Ok(Actions::Selected(30)));
    assert_eq!(channel.try_recv(), Err(TryRecvError::Empty));
}
