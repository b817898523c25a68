use omnishell_orchestrator::application::aggregator::ConcatAggregator;
use omnishell_orchestrator::domain::agent::AgentResponse;

fn make_response(agent_id: &str, content: &str, cache_hit: bool) -> AgentResponse {
    AgentResponse {
        request_id: "req-1".to_string(),
        agent_id: agent_id.to_string(),
        content: content.to_string(),
        structured_data: None,
        estimated_tokens: 100,
        duration: 50_000_000,
        cache_hit,
        warnings: Vec::new(),
    }
}

#[test]
fn aggregator_test_concat_aggregator() {
    let agg = ConcatAggregator::new(" | ");
    let responses = vec![make_response("a", "Hello", false), make_response("b", "World", true)];
    let result = agg.aggregate("req-1", responses).expect("aggregation should succeed");
    assert_eq!(result.content, "Hello | World");
    assert_eq!(result.total_tokens, 200);
    assert_eq!(result.cache_stats.hits, 1);
    assert_eq!(result.cache_stats.misses, 1);
    assert_eq!(result.worker_results.len(), 2);
}

#[test]
fn aggregator_test_empty_responses() {
    let agg = ConcatAggregator::default();
    let result = agg.aggregate("req-2", Vec::new()).expect("empty aggregation should succeed");
    assert!(result.content.is_empty());
    assert_eq!(result.total_tokens, 0);
}

#[test]
fn tests_test_concat_aggregator() {
    let agg = ConcatAggregator::new(" | ");
    let responses = vec![make_response("a", "Hello", false), make_response("b", "World", true)];
    let result = agg.aggregate("req-1", responses).expect("ok");
    assert_eq!(result.content, "Hello | World");
    assert_eq!(result.total_tokens, 200);
    assert_eq!(result.cache_stats.hits, 1);
    assert_eq!(result.cache_stats.misses, 1);
    assert_eq!(result.worker_results.len(), 2);
}

#[test]
fn tests_test_empty_responses() {
    let agg = ConcatAggregator::default();
    let result = agg.aggregate("req-2", Vec::new()).expect("ok");
    assert!(result.content.is_empty());
    assert_eq!(result.total_tokens, 0);
}

#[test]
fn aggregate_sums_durations_and_keeps_traces() {
    let agg = ConcatAggregator::default();
    let mut first = make_response("a", "one", false);
    first.warnings = vec!["slow".to_string()];
    let responses = vec![first, make_response("b", "two", false), make_response("c", "three", true)];
    let result = agg.aggregate("req-3", responses).expect("ok");
    assert_eq!(result.request_id, "req-3");
    assert_eq!(result.content, "one\n\ntwo\n\nthree");
    assert_eq!(result.total_duration, 150_000_000);
    assert_eq!(result.total_tokens, 300);
    assert_eq!(result.cache_stats.hits + result.cache_stats.misses, 3);
    assert_eq!(result.worker_results[0].agent_id, "a");
    assert_eq!(result.worker_results[0].errors, vec!["slow".to_string()]);
    assert_eq!(result.worker_results[0].subtask_description, "");
    assert!(result.worker_results[2].cache_hit);
    assert!(result.structured_data.is_none());
}

#[test]
fn aggregate_caps_token_total() {
    let agg = ConcatAggregator::new("");
    let mut a = make_response("a", "x", false);
    a.estimated_tokens = u64::MAX - 5;
    let b = make_response("b", "y", false);
    let result = agg.aggregate("req-4", vec![a, b]).expect("ok");
    assert_eq!(result.total_tokens, u64::MAX);
    assert_eq!(result.content, "xy");
}
