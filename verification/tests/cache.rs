use challenges::cache::{copy_operation, same_operation, CacheKey, Claim, ResultCache};
use challenges::judge::{EvaluatorRequest, EvaluatorSource, Judge, JudgeError, Limits, Operation};

fn judge(code: &str) -> Judge {
    Judge {
        challenge_id: 1,
        evaluator: EvaluatorSource { environment: "python".into(), code: code.into() },
    }
}

fn key(code: &str, seed: &str) -> CacheKey {
    CacheKey::of(&judge(code).generate(&seed.to_string(), Limits::none()))
}

#[test]
fn key_is_the_request_without_its_limits() {
    let request = EvaluatorRequest {
        environment: "python".into(),
        source: "code".into(),
        operation: Operation::Generate { seed: "s".into() },
        limits: Limits { time: Some(5), memory: Some(6) },
    };
    assert_eq!(
        CacheKey::of(&request),
        CacheKey {
            environment: "python".into(),
            source: "code".into(),
            operation: Operation::Generate { seed: "s".into() },
        }
    );
}

#[test]
fn evaluators_with_the_same_text_share_their_keys() {
    let a = judge("same text");
    let mut b = judge("same text");
    b.challenge_id = 99;
    let ka = CacheKey::of(&a.generate(&"s".to_string(), Limits::none()));
    let kb = CacheKey::of(&b.generate(&"s".to_string(), Limits { time: Some(1), memory: None }));
    assert!(ka.same(&kb));
    assert!(CacheKey::of(&a.examples()).same(&CacheKey::of(&b.examples())));
}

#[test]
fn any_difference_gives_another_key() {
    let k = key("text", "s");
    assert!(k.same(&key("text", "s")));
    assert!(!k.same(&key("text.", "s")));
    assert!(!k.same(&key("text", "t")));
    assert!(!k.same(&CacheKey::of(&judge("text").examples())));
    let mut other = key("text", "s");
    other.environment = "python3".into();
    assert!(!k.same(&other));
}

#[test]
fn same_operation_compares_every_argument() {
    let check = |seed: &str, input: &str, output: &str| Operation::Check {
        seed: seed.into(),
        input: input.into(),
        output: output.into(),
    };
    assert!(same_operation(&Operation::ListExamples, &Operation::ListExamples));
    assert!(same_operation(&check("a", "b", "c"), &check("a", "b", "c")));
    assert!(!same_operation(&check("a", "b", "c"), &check("x", "b", "c")));
    assert!(!same_operation(&check("a", "b", "c"), &check("a", "x", "c")));
    assert!(!same_operation(&check("a", "b", "c"), &check("a", "b", "x")));
    assert!(!same_operation(&check("a", "b", "c"), &Operation::Generate { seed: "a".into() }));
    assert_eq!(copy_operation(&check("a", "b", "c")), check("a", "b", "c"));
    assert_eq!(copy_operation(&Operation::ListExamples), Operation::ListExamples);
}

#[test]
fn an_empty_cache_has_nothing() {
    let cache: ResultCache<String> = ResultCache::new(10);
    assert_eq!(cache.lookup(&key("e", "s"), 0), None);
}

#[test]
fn one_caller_computes_and_the_others_wait() {
    let mut cache: ResultCache<String> = ResultCache::new(10);
    let k = key("e", "s");
    assert_eq!(cache.claim(&k, 100), Claim::Compute);
    for now in [100, 101, 105, 5000] {
        assert_eq!(cache.claim(&k, now), Claim::Wait);
        assert_eq!(cache.lookup(&k, now), None);
    }
    assert_eq!(cache.claim(&key("e", "other"), 100), Claim::Compute);
    cache.complete(&k, "input".to_string(), 106);
    for now in [106, 110, 115] {
        assert_eq!(cache.claim(&k, now), Claim::Hit);
        assert_eq!(cache.lookup(&k, now), Some(&"input".to_string()));
    }
    assert_eq!(cache.claim(&key("e", "other"), 110), Claim::Wait);
}

#[test]
fn a_value_expires_after_its_time_to_live() {
    let mut cache: ResultCache<u32> = ResultCache::new(10);
    let k = key("e", "s");
    cache.complete(&k, 7, 100);
    assert_eq!(cache.lookup(&k, 109), Some(&7));
    assert_eq!(cache.lookup(&k, 110), None);
    assert_eq!(cache.claim(&k, 109), Claim::Hit);
    assert_eq!(cache.claim(&k, 110), Claim::Compute);
    assert_eq!(cache.claim(&k, 110), Claim::Wait);
    cache.complete(&k, 8, 111);
    assert_eq!(cache.lookup(&k, 120), Some(&8));
    assert_eq!(cache.lookup(&k, 121), None);
}

#[test]
fn a_time_to_live_of_zero_keeps_nothing() {
    let mut cache: ResultCache<u32> = ResultCache::new(0);
    let k = key("e", "s");
    cache.complete(&k, 7, 100);
    assert_eq!(cache.lookup(&k, 100), None);
    assert_eq!(cache.claim(&k, 100), Claim::Compute);
}

#[test]
fn the_expiry_stops_at_the_largest_time() {
    let mut cache: ResultCache<u32> = ResultCache::new(u64::MAX);
    let k = key("e", "s");
    cache.complete(&k, 7, 5);
    assert_eq!(cache.lookup(&k, u64::MAX - 1), Some(&7));
    assert_eq!(cache.lookup(&k, u64::MAX), None);
}

#[test]
fn failures_are_kept_like_answers() {
    let mut cache: ResultCache<Result<Vec<String>, JudgeError>> = ResultCache::new(60);
    let good = CacheKey::of(&judge("good").examples());
    let bad = CacheKey::of(&judge("bad").examples());
    assert_eq!(cache.claim(&good, 0), Claim::Compute);
    assert_eq!(cache.claim(&bad, 0), Claim::Compute);
    cache.complete(&good, Ok(vec!["a".to_string()]), 1);
    cache.complete(&bad, Err(JudgeError::Sandbox), 1);
    assert_eq!(cache.claim(&bad, 30), Claim::Hit);
    assert_eq!(cache.lookup(&bad, 30), Some(&Err(JudgeError::Sandbox)));
    assert_eq!(cache.lookup(&good, 30), Some(&Ok(vec!["a".to_string()])));
    assert_eq!(cache.lookup(&bad, 61), None);
}

#[test]
fn generate_twice_gives_the_same_input() {
    let mut cache: ResultCache<String> = ResultCache::new(60);
    let first = CacheKey::of(&judge("e").generate(&"s".to_string(), Limits::none()));
    assert_eq!(cache.claim(&first, 0), Claim::Compute);
    cache.complete(&first, "3\n".to_string(), 2);
    let second =
        CacheKey::of(&judge("e").generate(&"s".to_string(), Limits { time: Some(1), memory: None }));
    assert_eq!(cache.claim(&second, 10), Claim::Hit);
    assert_eq!(cache.lookup(&second, 10), Some(&"3\n".to_string()));
    assert_eq!(cache.lookup(&second, 10), cache.lookup(&first, 20));
}

#[test]
fn purge_drops_what_is_stale_and_nothing_else() {
    let mut cache: ResultCache<u32> = ResultCache::new(10);
    let (old, new, busy) = (key("e", "old"), key("e", "new"), key("e", "busy"));
    cache.complete(&old, 1, 0);
    cache.complete(&new, 2, 5);
    assert_eq!(cache.claim(&busy, 6), Claim::Compute);
    cache.purge(12);
    assert_eq!(cache.lookup(&old, 12), None);
    assert_eq!(cache.lookup(&new, 12), Some(&2));
    assert_eq!(cache.claim(&busy, 12), Claim::Wait);
    assert_eq!(cache.claim(&old, 12), Claim::Compute);
    cache.purge(100);
    assert_eq!(cache.lookup(&new, 100), None);
    assert_eq!(cache.claim(&busy, 100), Claim::Wait);
    assert_eq!(cache.claim(&old, 100), Claim::Wait);
    cache.complete(&busy, 3, 100);
    cache.purge(100);
    assert_eq!(cache.lookup(&busy, 109), Some(&3));
}
