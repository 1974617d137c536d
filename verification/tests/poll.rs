use strawsoll::ledger;
use strawsoll::registry;
use strawsoll::Poll;
use strawsoll::PollOption;
use strawsoll::StarSollError;
use strawsoll::VoterId;
use strawsoll::MAX_OPTIONS;
use strawsoll::MAX_VOTERS;

fn fresh_poll() -> Poll {
    Poll { options: Vec::new(), voters: Vec::new(), finished: false }
}

fn voter(seed: u8) -> VoterId {
    VoterId { bytes: [seed; 32] }
}

fn labels(names: &[&str]) -> Vec<String> {
    names.iter().map(|n| n.to_string()).collect()
}

fn total_votes(poll: &Poll) -> u64 {
    poll.options.iter().map(|o| o.votes as u64).sum()
}

#[test]
fn initialize_yes_no() {
    let mut poll = fresh_poll();
    assert_eq!(poll.init(labels(&["Yes", "No"])), Ok(()));
    assert_eq!(poll.options.len(), 2);
    assert_eq!(poll.options[0].label, "Yes");
    assert_eq!(poll.options[0].id, 1);
    assert_eq!(poll.options[0].votes, 0);
    assert_eq!(poll.options[1].label, "No");
    assert_eq!(poll.options[1].id, 2);
    assert_eq!(poll.options[1].votes, 0);
    assert!(poll.voters.is_empty());
    assert!(!poll.finished);
}

#[test]
fn initialize_assigns_sequential_ids_up_to_capacity() {
    let mut poll = fresh_poll();
    let names = ["a", "b", "c", "d", "e"];
    assert_eq!(names.len(), MAX_OPTIONS);
    assert_eq!(poll.init(labels(&names)), Ok(()));
    assert_eq!(poll.options.len(), names.len());
    for (i, option) in poll.options.iter().enumerate() {
        assert_eq!(option.label, names[i]);
        assert_eq!(option.id, (i + 1) as u8);
        assert_eq!(option.votes, 0);
    }
    assert!(poll.voters.is_empty());
    assert!(!poll.finished);
}

#[test]
fn initialize_with_no_labels() {
    let mut poll = fresh_poll();
    assert_eq!(poll.init(Vec::new()), Ok(()));
    assert!(poll.options.is_empty());
    assert!(poll.voters.is_empty());
    assert!(!poll.finished);
}

#[test]
fn initialize_resets_voters() {
    let mut poll = fresh_poll();
    assert_eq!(poll.init(labels(&["Yes", "No"])), Ok(()));
    assert_eq!(poll.vote(1, voter(7)), Ok(()));
    assert_eq!(poll.init(labels(&["Up", "Down", "Sideways"])), Ok(()));
    assert_eq!(poll.options.len(), 3);
    assert_eq!(poll.options[0].label, "Up");
    assert!(poll.options.iter().all(|o| o.votes == 0));
    assert!(poll.voters.is_empty());
}

#[test]
fn initialize_refused_when_finished() {
    let mut poll = fresh_poll();
    poll.finished = true;
    assert_eq!(poll.init(labels(&["Yes"])), Err(StarSollError::PollAlreadyFinished));
    assert!(poll.options.is_empty());
    assert!(poll.voters.is_empty());
    assert!(poll.finished);
}

#[test]
fn vote_records_voter_and_count() {
    let mut poll = fresh_poll();
    assert_eq!(poll.init(labels(&["Yes", "No"])), Ok(()));
    let a = voter(1);
    assert_eq!(poll.vote(1, a), Ok(()));
    assert_eq!(poll.options[0].votes, 1);
    assert_eq!(poll.options[1].votes, 0);
    assert_eq!(poll.voters.len(), 1);
    assert_eq!(poll.voters[0], a);
}

#[test]
fn second_vote_by_same_voter_rejected() {
    let mut poll = fresh_poll();
    assert_eq!(poll.init(labels(&["Yes", "No"])), Ok(()));
    let a = voter(1);
    assert_eq!(poll.vote(1, a), Ok(()));
    assert_eq!(poll.vote(1, a), Err(StarSollError::UserAlreadyVoted));
    assert_eq!(poll.options[0].votes, 1);
    assert_eq!(poll.options[1].votes, 0);
    assert_eq!(poll.voters, vec![a]);
    // the ballot is one per poll, not one per option: another id fails too
    assert_eq!(poll.vote(2, a), Err(StarSollError::UserAlreadyVoted));
    assert_eq!(poll.options[0].votes, 1);
    assert_eq!(poll.options[1].votes, 0);
    assert_eq!(poll.voters, vec![a]);
}

#[test]
fn vote_for_unknown_option_rejected() {
    let mut poll = fresh_poll();
    assert_eq!(poll.init(labels(&["Yes", "No"])), Ok(()));
    let a = voter(1);
    assert_eq!(poll.vote(1, a), Ok(()));
    let b = voter(2);
    assert_eq!(poll.vote(99, b), Err(StarSollError::PollOptionNotFound));
    assert_eq!(poll.options[0].votes, 1);
    assert_eq!(poll.options[1].votes, 0);
    assert_eq!(poll.voters, vec![a]);
}

#[test]
fn vote_refused_when_finished() {
    let mut poll = fresh_poll();
    assert_eq!(poll.init(labels(&["Yes", "No"])), Ok(()));
    poll.finished = true;
    assert_eq!(poll.vote(1, voter(1)), Err(StarSollError::PollAlreadyFinished));
    assert_eq!(poll.options[0].votes, 0);
    assert!(poll.voters.is_empty());
}

#[test]
fn vote_counts_total_matches_ledger_at_every_step() {
    let mut poll = fresh_poll();
    assert_eq!(poll.init(labels(&["Yes", "No", "Maybe"])), Ok(()));
    let calls: [(u8, u8); 6] = [(1, 1), (3, 2), (1, 1), (9, 3), (3, 4), (2, 5)];
    let mut successes: u64 = 0;
    for (id, seed) in calls {
        if poll.vote(id, voter(seed)).is_ok() {
            successes += 1;
        }
        assert_eq!(total_votes(&poll), successes);
        assert_eq!(poll.voters.len() as u64, successes);
    }
    assert_eq!(successes, 4);
    assert_eq!(poll.options[0].votes, 1);
    assert_eq!(poll.options[1].votes, 1);
    assert_eq!(poll.options[2].votes, 2);
}

#[test]
fn ledger_fills_to_capacity() {
    let mut poll = fresh_poll();
    assert_eq!(poll.init(labels(&["Yes"])), Ok(()));
    for seed in 0..MAX_VOTERS {
        assert_eq!(poll.vote(1, voter(seed as u8)), Ok(()));
    }
    assert_eq!(poll.voters.len(), MAX_VOTERS);
    assert_eq!(poll.options[0].votes, MAX_VOTERS as u32);
}

#[test]
fn build_assigns_ids_in_order() {
    let options = registry::build(labels(&["x", "y", "z"]));
    assert_eq!(options.len(), 3);
    assert_eq!(options[0].id, 1);
    assert_eq!(options[1].id, 2);
    assert_eq!(options[2].id, 3);
    assert!(options.iter().all(|o| o.votes == 0));
}

#[test]
fn find_locates_the_unique_match() {
    let options = registry::build(labels(&["x", "y", "z"]));
    assert_eq!(registry::find(&options, 2), Some(1));
    assert_eq!(registry::find(&options, 3), Some(2));
    assert_eq!(registry::find(&options, 0), None);
    assert_eq!(registry::find(&options, 4), None);
}

#[test]
fn increment_touches_only_the_matching_option() {
    let mut options = registry::build(labels(&["x", "y"]));
    registry::increment(&mut options, 2);
    assert_eq!(options[0].votes, 0);
    assert_eq!(options[1].votes, 1);
    assert_eq!(options[0].label, "x");
    assert_eq!(options[1].label, "y");
    assert_eq!(options[0].id, 1);
    assert_eq!(options[1].id, 2);
}

#[test]
fn voter_eq_compares_all_bytes() {
    let a = voter(1);
    let mut almost = voter(1);
    almost.bytes[31] = 2;
    assert!(ledger::voter_eq(&a, &voter(1)));
    assert!(!ledger::voter_eq(&a, &almost));
    assert!(!ledger::voter_eq(&a, &voter(2)));
}

#[test]
fn ledger_contains_after_insert() {
    let mut voters: Vec<VoterId> = Vec::new();
    let a = voter(1);
    assert!(!ledger::contains(&voters, &a));
    ledger::insert(&mut voters, a);
    assert!(ledger::contains(&voters, &a));
    assert!(!ledger::contains(&voters, &voter(2)));
    assert_eq!(voters, vec![a]);
}

#[test]
fn distinct_options_accumulate_separately() {
    let mut poll = fresh_poll();
    assert_eq!(poll.init(labels(&["Yes", "No"])), Ok(()));
    assert_eq!(poll.vote(1, voter(1)), Ok(()));
    assert_eq!(poll.vote(2, voter(2)), Ok(()));
    assert_eq!(poll.vote(1, voter(3)), Ok(()));
    assert_eq!(poll.options[0].votes, 2);
    assert_eq!(poll.options[1].votes, 1);
    assert_eq!(poll.voters.len(), 3);
}

#[test]
fn check_well_formed_accepts_reachable_states() {
    let mut poll = fresh_poll();
    assert!(poll.check_well_formed());
    assert_eq!(poll.init(labels(&["Yes", "No"])), Ok(()));
    assert!(poll.check_well_formed());
    assert_eq!(poll.vote(1, voter(1)), Ok(()));
    assert!(poll.check_well_formed());
}

#[test]
fn check_well_formed_rejects_broken_records() {
    let mut poll = fresh_poll();
    assert_eq!(poll.init(labels(&["Yes", "No"])), Ok(()));
    assert_eq!(poll.vote(1, voter(1)), Ok(()));

    let mut wrong_id = Poll {
        options: registry::build(labels(&["Yes", "No"])),
        voters: Vec::new(),
        finished: false,
    };
    wrong_id.options[1].id = 7;
    assert!(!wrong_id.check_well_formed());

    let duplicate_voter = Poll {
        options: poll.options.clone(),
        voters: vec![voter(1), voter(1)],
        finished: false,
    };
    assert!(!duplicate_voter.check_well_formed());

    let miscounted = Poll {
        options: registry::build(labels(&["Yes", "No"])),
        voters: vec![voter(1)],
        finished: false,
    };
    assert!(!miscounted.check_well_formed());
}

#[test]
fn option_clone_keeps_fields() {
    let option = PollOption { label: "Yes".to_string(), id: 1, votes: 3 };
    let copy = option.clone();
    assert_eq!(copy.label, option.label);
    assert_eq!(copy.id, option.id);
    assert_eq!(copy.votes, option.votes);
}
