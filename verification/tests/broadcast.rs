use std::cell::RefCell;

use peer_session::coordinator::{LobbyCoordinator, Notification};
use peer_session::errors::{SendError, SessionError};
use peer_session::session::{Member, SessionId, SessionState};

fn joined(raw: u64) -> LobbyCoordinator {
    let mut c = LobbyCoordinator::new();
    c.sink().submit(Ok(SessionId { raw }));
    assert_eq!(
        c.poll(),
        Some(Notification::SessionJoined(SessionId { raw }))
    );
    c
}

fn mem(raw: u64) -> Member {
    Member { raw }
}

#[test]
fn broadcast_without_session_fails_without_sending() {
    let c = LobbyCoordinator::new();
    assert_eq!(c.current_session(), SessionState::NoSession);
    let payload: Vec<u8> = vec![1, 2, 3];
    let members = vec![mem(1), mem(2)];
    let r = c.broadcast(&payload, &members, mem(1), |_m: Member, _p: &Vec<u8>| {
        panic!("no provider send may happen without a session")
    });
    assert_eq!(r, Err(SessionError::NoActiveSession));
}

#[test]
fn broadcast_with_no_other_member_is_an_empty_success() {
    let c = joined(10);
    let payload: Vec<u8> = vec![7];
    let members = vec![mem(5)];
    let r = c.broadcast(&payload, &members, mem(5), |_m: Member, _p: &Vec<u8>| {
        panic!("nobody to address")
    });
    assert_eq!(r, Ok(vec![]));
}

#[test]
fn broadcast_with_empty_member_list_is_an_empty_success() {
    let c = joined(10);
    let payload: Vec<u8> = vec![];
    let members: Vec<Member> = vec![];
    let r = c.broadcast(&payload, &members, mem(5), |_m: Member, _p: &Vec<u8>| {
        panic!("nobody to address")
    });
    assert_eq!(r, Ok(vec![]));
}

#[test]
fn broadcast_skips_self_and_keeps_member_order() {
    let c = joined(10);
    let payload: Vec<u8> = vec![9, 9];
    let members = vec![mem(1), mem(2), mem(5), mem(3)];
    let seen: RefCell<Vec<(u64, Vec<u8>)>> = RefCell::new(Vec::new());
    let r = c.broadcast(&payload, &members, mem(5), |m: Member, p: &Vec<u8>| {
        seen.borrow_mut().push((m.raw, p.clone()));
        Ok(())
    });
    assert_eq!(
        r,
        Ok(vec![(mem(1), Ok(())), (mem(2), Ok(())), (mem(3), Ok(()))])
    );
    // Every addressed member got exactly the payload, in list order.
    assert_eq!(
        seen.into_inner(),
        vec![(1, vec![9, 9]), (2, vec![9, 9]), (3, vec![9, 9])]
    );
}

#[test]
fn one_failed_send_does_not_abort_the_batch() {
    let c = joined(10);
    let payload: Vec<u8> = vec![0];
    let members = vec![mem(1), mem(2), mem(3)];
    let r = c.broadcast(&payload, &members, mem(9), |m: Member, _p: &Vec<u8>| {
        if m.raw == 2 {
            Err(SendError::Rejected)
        } else {
            Ok(())
        }
    });
    assert_eq!(
        r,
        Ok(vec![
            (mem(1), Ok(())),
            (mem(2), Err(SendError::Rejected)),
            (mem(3), Ok(())),
        ])
    );
}

#[test]
fn all_sends_may_fail_and_are_each_reported() {
    let c = joined(10);
    let payload: Vec<u8> = vec![0];
    let members = vec![mem(1), mem(2)];
    let r = c.broadcast(&payload, &members, mem(9), |_m: Member, _p: &Vec<u8>| {
        Err(SendError::Unreachable)
    });
    assert_eq!(
        r,
        Ok(vec![
            (mem(1), Err(SendError::Unreachable)),
            (mem(2), Err(SendError::Unreachable)),
        ])
    );
}
