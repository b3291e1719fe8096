use mail_shard::dispatch::{Command, Dispatcher, ShardConfig};
use mail_shard::shard::{is_owned, owned_positions, owner, shard_of_hash, shard_positions, uid_hash};

#[test]
fn uid_hash_matches_fx_hasher64() {
    assert_eq!(uid_hash("1"), 11016108215992845957);
    assert_eq!(uid_hash("abc"), 7132985165002709727);
    assert_eq!(uid_hash("123456789"), 9907954692263691476);
}

#[test]
fn owner_is_repeatable() {
    for id in ["1", "42", "abc", "12345", ""] {
        for total in [1u64, 2, 3, 7, 1000] {
            let a = owner(id, total);
            let b = owner(&String::from(id), total);
            assert_eq!(a, b);
            assert!(a < total);
        }
    }
}

#[test]
fn owner_is_hash_mod_total() {
    assert_eq!(owner("3", 3), 2);
    assert_eq!(owner("6", 3), 1);
    assert_eq!(owner("9", 3), 0);
    assert_eq!(shard_of_hash(10, 3), 1);
    assert_eq!(shard_of_hash(u64::MAX, 1), 0);
}

#[test]
fn single_worker_owns_everything() {
    let ids: Vec<String> = ["1", "2", "3", "abc", "zz"].iter().map(|s| s.to_string()).collect();
    assert_eq!(owned_positions(&ids, 1, 0), vec![0, 1, 2, 3, 4]);
    let cfg = ShardConfig::new(0, 1, 4, 10, 10).unwrap();
    let mut d = Dispatcher::new(cfg);
    assert_eq!(d.next_command(), Command::Poll);
    d.fetched(&ids);
    for i in 0..4usize {
        assert_eq!(d.next_command(), Command::Launch(i));
    }
    assert_eq!(d.next_command(), Command::AwaitCompletion);
}

#[test]
fn message_of_shard_one_goes_to_worker_one_only() {
    let id = "6";
    assert_eq!(uid_hash(id) % 3, 1);
    assert!(!is_owned(id, 3, 0));
    assert!(is_owned(id, 3, 1));
    assert!(!is_owned(id, 3, 2));
    let ids = vec![id.to_string()];
    for worker in 0..3u64 {
        let mut d = Dispatcher::new(ShardConfig::new(worker, 3, 4, 10, 10).unwrap());
        assert_eq!(d.next_command(), Command::Poll);
        d.fetched(&ids);
        let first = d.next_command();
        if worker == 1 {
            assert_eq!(first, Command::Launch(0));
        } else {
            assert_eq!(first, Command::Sleep(10));
        }
    }
}

#[test]
fn workers_split_a_batch() {
    let ids: Vec<String> = (1..=14).map(|i| i.to_string()).collect();
    let mut seen = vec![0u32; ids.len()];
    for worker in 0..3u64 {
        for p in owned_positions(&ids, 3, worker) {
            seen[p] += 1;
        }
    }
    assert!(seen.iter().all(|&n| n == 1));
    assert_eq!(owned_positions(&ids, 3, 1), vec![5, 6, 7, 13]);
}

#[test]
fn shard_positions_of_hashes() {
    let hashes = vec![0u64, 1, 2, 3, 4, 5, 6];
    assert_eq!(shard_positions(&hashes, 3, 0), vec![0, 3, 6]);
    assert_eq!(shard_positions(&hashes, 3, 2), vec![2, 5]);
    assert_eq!(shard_positions(&Vec::new(), 3, 2), Vec::<usize>::new());
}
