use rquest_middleware::{Dispatch, Next, Probe};
use rquest_middleware::chain::probe_trace;

#[test]
fn three_middlewares_nest_in_order() {
    let trace = probe_trace(Next::new(3));
    assert_eq!(
        trace,
        vec![
            Probe::Enter(0),
            Probe::Enter(1),
            Probe::Enter(2),
            Probe::Transport,
            Probe::Exit(2),
            Probe::Exit(1),
            Probe::Exit(0),
        ]
    );
}

#[test]
fn empty_chain_goes_to_transport() {
    assert_eq!(probe_trace(Next::new(0)), vec![Probe::Transport]);
    assert_eq!(Next::new(0).run(), Dispatch::Transport);
}

#[test]
fn cursor_can_be_run_twice() {
    let next = Next::new(2);
    assert_eq!(next.remaining(), 2);
    let first = next.run();
    let again = next.run();
    assert_eq!(first, again);
    match first {
        Dispatch::Middleware { index, rest } => {
            assert_eq!(index, 0);
            assert_eq!(rest, Next { pos: 1, len: 2 });
            assert_eq!(rest.remaining(), 1);
        }
        Dispatch::Transport => panic!("middlewares remain"),
    }
}
