use easy_proxy::relay::{Action, Direction, Ended, Relay, Stage};

const WAYS: [(Direction, Direction); 2] = [
    (Direction::ToServer, Direction::ToClient),
    (Direction::ToClient, Direction::ToServer),
];

#[test]
fn tunnel_finishes_with_the_second_copy() {
    for (first, second) in WAYS {
        let mut relay = Relay::new();
        assert_eq!(relay.stage(), Stage::Both);
        assert_eq!(relay.step(Ended { direction: first, ok: true }), Action::Wait);
        assert_eq!(relay.stage(), Stage::One { left: second });
        assert_eq!(relay.step(Ended { direction: second, ok: true }), Action::Finish);
        assert_eq!(relay.stage(), Stage::Over);
    }
}

#[test]
fn failure_of_either_copy_is_reported() {
    for (first, second) in WAYS {
        let mut relay = Relay::new();
        assert_eq!(relay.step(Ended { direction: first, ok: false }), Action::Report);
        assert_eq!(relay.stage(), Stage::Over);
        let mut relay = Relay::new();
        relay.step(Ended { direction: first, ok: true });
        assert_eq!(relay.step(Ended { direction: second, ok: false }), Action::Report);
        assert_eq!(relay.stage(), Stage::Over);
    }
}
