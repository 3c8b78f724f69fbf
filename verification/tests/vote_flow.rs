use vote::motion::Motion;
use vote::person::{Person, PersonId, PersonList};
use vote::procedure::{Procedure, Referendum};
use vote::ratio::Ratio;
use vote::time::compute_deadline;

fn id_range(from: u64, to: u64) -> Vec<PersonId> {
    (from..to).map(PersonId).collect()
}

fn motion_with(dev_count: u64, elector_count: u64) -> Motion {
    Motion {
        title: "Construction of a new monument in Exampletown",
        description: "Exampletown is too empty. A monument must be built.",
        developers: id_range(0, dev_count),
        electors: id_range(0, elector_count),
    }
}

fn roster(n: u64) -> PersonList {
    let people = (0..n)
        .map(|i| Person {
            name: format!("Person {}", i),
        })
        .collect();
    PersonList::from_vec(people)
}

#[test]
fn ineligible_voter_always_fails_prototype() {
    let mut p = Procedure::begin(motion_with(4, 10));
    // id 7 is an elector but not a developer
    assert_eq!(p.register_proposal_vote(PersonId(7)), Err(()));
    assert_eq!(p.proposal_votes(), 0);
    // id 99 belongs to no set at all
    assert_eq!(p.register_proposal_vote(PersonId(99)), Err(()));
    assert_eq!(p.proposal_votes(), 0);
}

#[test]
fn first_vote_succeeds_second_fails_prototype() {
    let mut p = Procedure::begin(motion_with(4, 10));
    assert_eq!(p.register_proposal_vote(PersonId(2)), Ok(()));
    assert_eq!(p.proposal_votes(), 1);
    assert_eq!(p.register_proposal_vote(PersonId(2)), Err(()));
    assert_eq!(p.proposal_votes(), 1);
}

#[test]
fn majority_threshold_five_developers() {
    // d=5: floor(5/2)=2, so 2 votes fail and 3 succeed
    let mut p = Procedure::begin(motion_with(5, 10));
    assert_eq!(p.register_proposal_vote(PersonId(0)), Ok(()));
    assert_eq!(p.register_proposal_vote(PersonId(1)), Ok(()));
    let p = match p.into_proposal_at(0, 0) {
        Ok(_) => panic!("2 of 5 votes must not advance"),
        Err(p) => p,
    };
    let mut p = p;
    assert_eq!(p.register_proposal_vote(PersonId(2)), Ok(()));
    assert!(p.into_proposal_at(0, 0).is_ok());
}

#[test]
fn majority_threshold_four_developers() {
    // d=4: floor(4/2)=2, so 2 votes fail (not a strict majority) and 3 succeed
    let mut p = Procedure::begin(motion_with(4, 10));
    assert_eq!(p.register_proposal_vote(PersonId(0)), Ok(()));
    assert_eq!(p.register_proposal_vote(PersonId(1)), Ok(()));
    let mut p = match p.into_proposal_at(0, 0) {
        Ok(_) => panic!("2 of 4 votes must not advance"),
        Err(p) => p,
    };
    assert_eq!(p.register_proposal_vote(PersonId(2)), Ok(()));
    assert!(p.into_proposal_at(0, 0).is_ok());
}

#[test]
fn anonymous_motion_never_advances() {
    // 0 developers: the threshold of 0/2 + 1 = 1 vote can never be cast
    let p = Procedure::begin(motion_with(0, 10));
    assert!(p.into_proposal_at(0, 0).is_err());
}

#[test]
fn failed_advance_returns_prototype_unchanged() {
    let mut p = Procedure::begin(motion_with(5, 10));
    assert_eq!(p.register_proposal_vote(PersonId(0)), Ok(()));
    let q = match p.into_proposal_at(0, 1_000) {
        Ok(_) => panic!("1 of 5 votes must not advance"),
        Err(q) => q,
    };
    assert_eq!(q.proposal_votes(), 1);
    // the ledger survived: the same person still cannot vote twice
    let mut q = q;
    assert_eq!(q.register_proposal_vote(PersonId(0)), Err(()));
    // and an unused developer still can
    assert_eq!(q.register_proposal_vote(PersonId(1)), Ok(()));
    assert_eq!(q.proposal_votes(), 2);
}

#[test]
fn deadline_is_now_plus_debate_duration() {
    let mut p = Procedure::begin(motion_with(1, 10));
    assert_eq!(p.register_proposal_vote(PersonId(0)), Ok(()));
    let prop = p.into_proposal_at(1_000, 250).unwrap_or_else(|_| panic!("must advance"));
    assert_eq!(prop.end_date(), 1_250);
}

#[test]
fn advance_before_deadline_fails_at_or_after_succeeds() {
    let quarter = Ratio::new(1, 4);
    let mut p = Procedure::begin(motion_with(1, 12));
    assert_eq!(p.register_proposal_vote(PersonId(0)), Ok(()));
    let prop = p.into_proposal_at(0, 1_000).unwrap_or_else(|_| panic!("must advance"));
    assert_eq!(prop.end_date(), 1_000);
    // one millisecond early: fails, however close
    let prop = match prop.into_petition_at(999, quarter) {
        Ok(_) => panic!("before the deadline must not advance"),
        Err(p) => p,
    };
    assert_eq!(prop.end_date(), 1_000);
    // exactly at the deadline: succeeds
    assert!(prop.into_petition_at(1_000, quarter).is_ok());
}

#[test]
fn petition_sample_size_rounds_to_nearest() {
    // 40 electors at 1/4: exactly 10
    let mut p = Procedure::begin(motion_with(1, 40));
    assert_eq!(p.register_proposal_vote(PersonId(0)), Ok(()));
    let prop = p.into_proposal_at(0, 0).unwrap_or_else(|_| panic!("must advance"));
    let pet = prop
        .into_petition_at(0, Ratio::new(1, 4))
        .unwrap_or_else(|_| panic!("must advance"));
    assert_eq!(pet.voter_ids().len(), 10);

    // 10 electors at 1/4: 2.5 rounds to 3
    let mut p = Procedure::begin(motion_with(1, 10));
    assert_eq!(p.register_proposal_vote(PersonId(0)), Ok(()));
    let prop = p.into_proposal_at(0, 0).unwrap_or_else(|_| panic!("must advance"));
    let pet = prop
        .into_petition_at(0, Ratio::new(1, 4))
        .unwrap_or_else(|_| panic!("must advance"));
    assert_eq!(pet.voter_ids().len(), 3);
}

#[test]
fn petition_sample_is_drawn_from_electors_without_duplicates() {
    let mut p = Procedure::begin(motion_with(1, 40));
    assert_eq!(p.register_proposal_vote(PersonId(0)), Ok(()));
    let prop = p.into_proposal_at(0, 0).unwrap_or_else(|_| panic!("must advance"));
    let pet = prop
        .into_petition_at(0, Ratio::new(5, 8))
        .unwrap_or_else(|_| panic!("must advance"));
    let sample = pet.voter_ids();
    assert_eq!(sample.len(), 25);
    for id in sample {
        assert!(id.0 < 40, "sampled ID outside the electorate");
    }
    for i in 0..sample.len() {
        for j in 0..sample.len() {
            if i != j {
                assert_ne!(sample[i], sample[j], "duplicate in the sample");
            }
        }
    }
}

#[test]
fn petition_votes_limited_to_sample() {
    let mut p = Procedure::begin(motion_with(1, 40));
    assert_eq!(p.register_proposal_vote(PersonId(0)), Ok(()));
    let prop = p.into_proposal_at(0, 0).unwrap_or_else(|_| panic!("must advance"));
    let mut pet = prop
        .into_petition_at(0, Ratio::new(1, 4))
        .unwrap_or_else(|_| panic!("must advance"));
    let sample: Vec<PersonId> = pet.voter_ids().to_vec();
    // an elector outside the sample may not vote in this stage
    let outsider = (0..40).map(PersonId).find(|id| !sample.contains(id)).unwrap();
    assert_eq!(pet.register_approval_vote(outsider), Err(()));
    assert_eq!(pet.votes_for(), 0);
    // a sampled elector votes once, then never again
    assert_eq!(pet.register_approval_vote(sample[0]), Ok(()));
    assert_eq!(pet.votes_for(), 1);
    assert_eq!(pet.register_approval_vote(sample[0]), Err(()));
    assert_eq!(pet.votes_for(), 1);
}

#[test]
fn petition_tie_does_not_advance() {
    let mut p = Procedure::begin(motion_with(1, 40));
    assert_eq!(p.register_proposal_vote(PersonId(0)), Ok(()));
    let prop = p.into_proposal_at(0, 0).unwrap_or_else(|_| panic!("must advance"));
    let mut pet = prop
        .into_petition_at(0, Ratio::new(1, 4))
        .unwrap_or_else(|_| panic!("must advance"));
    let sample: Vec<PersonId> = pet.voter_ids().to_vec();
    assert_eq!(sample.len(), 10);
    for id in sample.iter().take(5) {
        assert_eq!(pet.register_approval_vote(*id), Ok(()));
    }
    // 5 of 10 approvals: floor(10/2) = 5 is not strictly exceeded
    let pet = match pet.into_referendum() {
        Ok(_) => panic!("a tied petition must not advance"),
        Err(p) => p,
    };
    assert_eq!(pet.votes_for(), 5);
    assert_eq!(pet.voter_ids().to_vec(), sample);
}

#[test]
fn referendum_votes_and_double_vote_across_sides() {
    let motion = motion_with(1, 10);
    let mut r = Procedure {
        motion,
        stage: Referendum {
            have_voted: Vec::new(),
            votes_for: 0,
            votes_against: 0,
        },
    };
    assert_eq!(r.register_vote_for(PersonId(3)), Ok(()));
    assert_eq!(r.votes_for(), 1);
    // one vote total per person, regardless of side
    assert_eq!(r.register_vote_against(PersonId(3)), Err(()));
    assert_eq!(r.votes_against(), 0);
    assert_eq!(r.register_vote_for(PersonId(3)), Err(()));
    assert_eq!(r.votes_for(), 1);
    // a stranger to the electorate may not vote on either side
    assert_eq!(r.register_vote_for(PersonId(10)), Err(()));
    assert_eq!(r.register_vote_against(PersonId(10)), Err(()));
    assert_eq!(r.votes_for(), 1);
    assert_eq!(r.votes_against(), 0);
}

#[test]
fn referendum_tie_rejects() {
    let r = Procedure {
        motion: motion_with(0, 10),
        stage: Referendum {
            have_voted: id_range(0, 10),
            votes_for: 5,
            votes_against: 5,
        },
    };
    match r.pass() {
        Ok(()) => panic!("5 for / 5 against must reject"),
        Err(r) => {
            assert_eq!(r.votes_for(), 5);
            assert_eq!(r.votes_against(), 5);
        }
    }
}

#[test]
fn end_to_end_pass() {
    // 10 developers, 6 vote yes: 6 > floor(10/2) = 5
    let mut p = Procedure::begin(motion_with(10, 40));
    for i in 0..6 {
        assert_eq!(p.register_proposal_vote(PersonId(i)), Ok(()));
    }
    // deadline 0 milliseconds ahead: advancing at the same instant succeeds
    let prop = p.into_proposal_at(7, 0).unwrap_or_else(|_| panic!("6 of 10 must advance"));
    assert_eq!(prop.end_date(), 7);
    // sample 25 of the 40 electors; 13 approve: 13 > floor(25/2) = 12
    let mut pet = prop
        .into_petition_at(7, Ratio::new(5, 8))
        .unwrap_or_else(|_| panic!("at the deadline must advance"));
    let sample: Vec<PersonId> = pet.voter_ids().to_vec();
    assert_eq!(sample.len(), 25);
    for id in sample.iter().take(13) {
        assert_eq!(pet.register_approval_vote(*id), Ok(()));
    }
    let mut r = pet.into_referendum().unwrap_or_else(|_| panic!("13 of 25 must advance"));
    // 20 for, 15 against, out of the 40
    for i in 0..20 {
        assert_eq!(r.register_vote_for(PersonId(i)), Ok(()));
    }
    for i in 20..35 {
        assert_eq!(r.register_vote_against(PersonId(i)), Ok(()));
    }
    assert_eq!(r.votes_for(), 20);
    assert_eq!(r.votes_against(), 15);
    assert!(r.pass().is_ok());
}

#[test]
fn end_to_end_reject() {
    let mut p = Procedure::begin(motion_with(10, 40));
    for i in 0..6 {
        assert_eq!(p.register_proposal_vote(PersonId(i)), Ok(()));
    }
    let prop = p.into_proposal_at(7, 0).unwrap_or_else(|_| panic!("6 of 10 must advance"));
    let mut pet = prop
        .into_petition_at(7, Ratio::new(5, 8))
        .unwrap_or_else(|_| panic!("at the deadline must advance"));
    let sample: Vec<PersonId> = pet.voter_ids().to_vec();
    for id in sample.iter().take(13) {
        assert_eq!(pet.register_approval_vote(*id), Ok(()));
    }
    let mut r = pet.into_referendum().unwrap_or_else(|_| panic!("13 of 25 must advance"));
    // 15 for, 20 against: the motion is rejected
    for i in 0..15 {
        assert_eq!(r.register_vote_for(PersonId(i)), Ok(()));
    }
    for i in 15..35 {
        assert_eq!(r.register_vote_against(PersonId(i)), Ok(()));
    }
    match r.pass() {
        Ok(()) => panic!("15 for / 20 against must reject"),
        Err(r) => {
            assert_eq!(r.votes_for(), 15);
            assert_eq!(r.votes_against(), 20);
        }
    }
}

#[test]
fn clock_driven_advance() {
    // with the wall clock: a deadline 0 ms ahead is reached at once
    let mut p = Procedure::begin(motion_with(1, 8));
    assert_eq!(p.register_proposal_vote(PersonId(0)), Ok(()));
    let mut prop = p.into_proposal(0).unwrap_or_else(|_| panic!("1 of 1 must advance"));
    let pet = loop {
        match prop.into_petition() {
            Ok(pet) => break pet,
            Err(p) => prop = p,
        }
    };
    // default ratio: a quarter of the 8 electors
    assert_eq!(pet.voter_ids().len(), 2);
}

#[test]
fn roster_sampling() {
    let list = roster(10);
    assert_eq!(list.len(), 10);
    let ids = list.ids();
    assert_eq!(ids.len(), 10);
    for (i, id) in ids.iter().enumerate() {
        assert_eq!(id.0, i as u64);
    }
    let single = list.rand_choice();
    assert!(single.0 < 10);
    let picks = list.rand_choices(5).expect("5 of 10 must succeed");
    assert_eq!(picks.len(), 5);
    for p in &picks {
        assert!(p.0 < 10);
    }
    for i in 0..picks.len() {
        for j in 0..picks.len() {
            if i != j {
                assert_ne!(picks[i], picks[j], "duplicate in the draw");
            }
        }
    }
    // asking for more people than exist is a caller error
    assert_eq!(list.rand_choices(11), Err(()));
    // drawing everyone is still legal
    assert_eq!(list.rand_choices(10).expect("10 of 10 must succeed").len(), 10);
}

#[test]
fn roster_lookup() {
    let list = roster(3);
    assert_eq!(list.get(PersonId(2)).name, "Person 2");
    let m = motion_with(2, 3);
    assert_eq!(m.dev_count(), 2);
    assert_eq!(m.elector_count(), 3);
    assert_eq!(m.title, "Construction of a new monument in Exampletown");
}

#[test]
fn deadline_arithmetic_saturates() {
    assert_eq!(compute_deadline(100, 50), 150);
    assert_eq!(compute_deadline(-100, 50), -50);
    assert_eq!(compute_deadline(i64::MAX - 5, 10), i64::MAX);
    assert_eq!(compute_deadline(0, u64::MAX), i64::MAX);
}

#[test]
fn ratio_scaling() {
    assert_eq!(Ratio::new(1, 4).scale(10), 3);
    assert_eq!(Ratio::new(1, 4).scale(40), 10);
    assert_eq!(Ratio::new(5, 8).scale(40), 25);
    assert_eq!(Ratio::new(1, 1).scale(7), 7);
    assert_eq!(Ratio::new(1, 3).scale(0), 0);
}
