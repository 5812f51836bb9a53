use std::collections::HashMap;
use std::time::Duration;

use deploy_execution::fetcher::{Fetcher, StoringState};

type LegacyDeployFetcher = Fetcher<[u8; 32], u64, &'static str, u32>;

fn fetcher() -> LegacyDeployFetcher {
    Fetcher {
        get_from_peer_timeout: Duration::from_millis(2500),
        item_handles: HashMap::from([([1; 32], HashMap::from([(4, "waiting")]))]),
        metrics: 17,
    }
}

#[test]
fn any_peer_will_do() {
    assert!(LegacyDeployFetcher::SAFE_TO_RESPOND_TO_ALL);
}

#[test]
fn item_handles_are_changed_in_place() {
    let mut fetcher = fetcher();
    assert_eq!(
        fetcher.item_handles(),
        &HashMap::from([([1; 32], HashMap::from([(4, "waiting")]))])
    );
    fetcher
        .item_handles()
        .insert([2; 32], HashMap::from([(5, "asked")]));
    assert_eq!(fetcher.item_handles.len(), 2);
    assert_eq!(fetcher.item_handles[&[2; 32]][&5], "asked");
    assert_eq!(fetcher.metrics, 17);
    assert_eq!(fetcher.get_from_peer_timeout, Duration::from_millis(2500));
}

#[test]
fn metrics_and_timeout_are_read_as_they_are() {
    let mut fetcher = fetcher();
    assert_eq!(*fetcher.metrics(), 17);
    assert_eq!(fetcher.peer_timeout(), Duration::from_millis(2500));
}

#[test]
fn fetched_deploy_is_never_stored() {
    let state: StoringState<(), Vec<u8>> = LegacyDeployFetcher::put_to_storage(vec![6, 6]);
    assert_eq!(state, StoringState::WontStore(vec![6, 6]));
}
