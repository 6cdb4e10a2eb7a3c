use stellarcade::oracle_integration::{Error, OracleIntegration};
use stellarcade::Address;

fn setup(oracle: Address) -> OracleIntegration {
    let mut c = OracleIntegration::new();
    c.init(oracle, vec![oracle]).unwrap();
    c
}

#[test]
fn test_full_flow() {
    let oracle = Address(1);
    let mut c = setup(oracle);
    let feed = [1u8; 32];
    let req = [2u8; 32];
    let payload = vec![9u8, 9, 9];
    c.request_data(oracle, feed, req).unwrap();
    assert!(c.latest(feed).is_none());
    c.fulfill_data(oracle, req, payload.clone(), Vec::new()).unwrap();
    let latest = c.latest(feed).unwrap();
    assert_eq!(latest, payload);
    let r = c.get_request(req).unwrap();
    assert!(r.fulfilled);
    assert_eq!(r.feed_id, feed);
    assert_eq!(r.payload, payload);
}

#[test]
fn test_duplicate_request() {
    let oracle = Address(1);
    let mut c = setup(oracle);
    let feed = [3u8; 32];
    let req = [4u8; 32];
    c.request_data(oracle, feed, req).unwrap();
    let result = c.request_data(oracle, feed, req);
    assert!(result.is_err());
    assert_eq!(result, Err(Error::RequestExists));
}

#[test]
fn test_refulfill_rejected() {
    let oracle = Address(1);
    let mut c = setup(oracle);
    let feed = [5u8; 32];
    let req = [6u8; 32];
    let payload = vec![1u8, 2, 3];
    c.request_data(oracle, feed, req).unwrap();
    c.fulfill_data(oracle, req, payload.clone(), Vec::new()).unwrap();
    let result = c.fulfill_data(oracle, req, payload, Vec::new());
    assert!(result.is_err());
    assert_eq!(result, Err(Error::AlreadyFulfilled));
}

#[test]
fn oracle_integration_rejections() {
    let oracle = Address(1);
    let mut c = OracleIntegration::new();
    assert_eq!(c.init(oracle, Vec::new()), Err(Error::InvalidInput));
    assert_eq!(c.fulfill_data(oracle, [2u8; 32], vec![1], Vec::new()), Err(Error::NotAuthorized));
    c.init(oracle, vec![oracle]).unwrap();
    assert_eq!(c.init(oracle, vec![oracle]), Err(Error::AlreadyInitialized));
    assert_eq!(c.request_data(oracle, [0u8; 32], [2u8; 32]), Err(Error::InvalidInput));
    assert_eq!(c.request_data(oracle, [1u8; 32], [0u8; 32]), Err(Error::InvalidInput));
    assert_eq!(c.fulfill_data(oracle, [2u8; 32], vec![1], Vec::new()), Err(Error::RequestNotFound));
    c.request_data(oracle, [1u8; 32], [2u8; 32]).unwrap();
    assert_eq!(c.fulfill_data(oracle, [2u8; 32], Vec::new(), Vec::new()), Err(Error::InvalidInput));
    assert_eq!(
        c.fulfill_data(Address(5), [2u8; 32], vec![1], Vec::new()),
        Err(Error::OracleNotWhitelisted)
    );
    assert!(!c.get_request([2u8; 32]).unwrap().fulfilled);
    assert!(c.get_request([7u8; 32]).is_none());
}

use stellarcade::matchmaking_queue::{self, MatchmakingQueue};

#[test]
fn test_enqueue_and_create_match() {
    let admin = Address(1);
    let p1 = Address(2);
    let p2 = Address(3);
    let p3 = Address(4);
    let mut m = MatchmakingQueue::new();
    m.init(admin).unwrap();
    m.enqueue_player("ranked".to_string(), p1, "1v1".to_string()).unwrap();
    m.enqueue_player("ranked".to_string(), p2, "1v1".to_string()).unwrap();
    let state = m.queue_state("ranked".to_string()).unwrap();
    assert_eq!(state.players.len(), 2);
    let match_id = m.create_match(admin, "ranked".to_string(), vec![p1, p2]).unwrap();
    assert_eq!(match_id, 0);
    let state = m.queue_state("ranked".to_string()).unwrap();
    assert_eq!(state.players.len(), 0);
    assert_eq!(state.criteria_hash, "1v1");
    let rec = m.match_state(0).unwrap();
    assert_eq!(rec.players, vec![p1, p2]);
    m.enqueue_player("ranked".to_string(), p3, "other".to_string()).unwrap();
    m.enqueue_player("ranked".to_string(), p1, "other".to_string()).unwrap();
    assert_eq!(m.create_match(admin, "ranked".to_string(), vec![p1]), Ok(1));
    assert_eq!(m.queue_state("ranked".to_string()).unwrap().players, vec![p3]);
}

#[test]
fn test_duplicate_enqueue_fails() {
    let mut m = MatchmakingQueue::new();
    m.init(Address(1)).unwrap();
    m.enqueue_player("ranked".to_string(), Address(2), "1v1".to_string()).unwrap();
    assert_eq!(
        m.enqueue_player("ranked".to_string(), Address(2), "1v1".to_string()),
        Err(matchmaking_queue::Error::PlayerAlreadyInQueue)
    );
}

#[test]
fn test_dequeue_player() {
    let mut m = MatchmakingQueue::new();
    m.init(Address(1)).unwrap();
    let p1 = Address(2);
    m.enqueue_player("casual".to_string(), p1, "2v2".to_string()).unwrap();
    assert_eq!(
        m.dequeue_player(Address(9), "casual".to_string(), p1),
        Err(matchmaking_queue::Error::NotAuthorized)
    );
    m.dequeue_player(p1, "casual".to_string(), p1).unwrap();
    let state = m.queue_state("casual".to_string()).unwrap();
    assert_eq!(state.players.len(), 0);
    assert_eq!(
        m.dequeue_player(p1, "casual".to_string(), p1),
        Err(matchmaking_queue::Error::PlayerNotInQueue)
    );
    assert_eq!(
        m.dequeue_player(p1, "none".to_string(), p1),
        Err(matchmaking_queue::Error::QueueNotFound)
    );
}

#[test]
fn matchmaking_double_init_fails() {
    let mut m = MatchmakingQueue::new();
    m.init(Address(1)).unwrap();
    assert_eq!(m.init(Address(1)), Err(matchmaking_queue::Error::AlreadyInitialized));
    assert_eq!(
        m.create_match(Address(1), "q".to_string(), Vec::new()),
        Err(matchmaking_queue::Error::EmptyPlayers)
    );
    assert_eq!(m.match_state(0).err(), Some(matchmaking_queue::Error::MatchNotFound));
}
