use summa_bencher::{
    generate_dummy_entries, output_filename, parse_json, BackendAdapter, BenchConfig, BenchError,
    BenchmarkResult, BenchmarkRun, Phase,
};

#[test]
fn synthesizer_population_shape() {
    let entries = generate_dummy_entries(16, 3).unwrap();
    assert_eq!(entries.len(), 16);
    for e in &entries {
        assert_eq!(e.username.chars().count(), 10);
        assert!(e.username.chars().all(|c| c.is_ascii_alphanumeric()));
        assert_eq!(e.balances.len(), 3);
        for b in &e.balances {
            assert!(*b >= 1000 && *b < 90000);
        }
    }
}

#[test]
fn synthesizer_empty_population() {
    let entries = generate_dummy_entries(0, 1).unwrap();
    assert_eq!(entries.len(), 0);
}

#[test]
fn synthesizer_rejects_zero_currencies() {
    let r = generate_dummy_entries(8, 0);
    assert_eq!(r.unwrap_err(), BenchError::InvalidConfiguration);
    let r = generate_dummy_entries(0, 0);
    assert_eq!(r.unwrap_err(), BenchError::InvalidConfiguration);
}

#[test]
fn config_derives_population() {
    let c = BenchConfig::new(15, 17, 1, 8, 6).unwrap();
    assert_eq!(c.n_users, (1usize << 17) - 6);
    assert_eq!(c.k, 15);
    assert_eq!(c.levels, 17);
    assert_eq!(c.n_currencies, 1);
    assert_eq!(c.n_bytes, 8);
}

#[test]
fn config_rejects_bad_parameters() {
    assert_eq!(
        BenchConfig::new(15, 17, 0, 8, 0).unwrap_err(),
        BenchError::InvalidConfiguration
    );
    assert_eq!(
        BenchConfig::new(15, 64, 1, 8, 0).unwrap_err(),
        BenchError::InvalidConfiguration
    );
    assert_eq!(
        BenchConfig::new(15, 3, 1, 8, 8).unwrap_err(),
        BenchError::InvalidConfiguration
    );
}

#[test]
fn config_derivation_is_idempotent() {
    let a = BenchConfig::new(15, 17, 2, 8, 1).unwrap();
    let b = BenchConfig::new(15, 17, 2, 8, 1).unwrap();
    assert_eq!(a.k, b.k);
    assert_eq!(a.levels, b.levels);
    assert_eq!(a.n_currencies, b.n_currencies);
    assert_eq!(a.n_bytes, b.n_bytes);
    assert_eq!(a.user_offset, b.user_offset);
    assert_eq!(a.n_users, b.n_users);
}

#[test]
fn adapter_init_checks_capacity() {
    let adapter = BackendAdapter::new(4, 1);
    let entries = generate_dummy_entries(3, 1).unwrap();
    assert_eq!(
        adapter.init(entries).unwrap_err(),
        BenchError::InvalidConfiguration
    );
    let entries = generate_dummy_entries(4, 1).unwrap();
    let circuit = adapter.init(entries).unwrap();
    assert_eq!(circuit.entries.len(), 4);
    assert_eq!(circuit.n_currencies, 1);
}

#[test]
fn adapter_inclusion_subject_bounds() {
    let adapter = BackendAdapter::new(4, 2);
    let entries = generate_dummy_entries(4, 2).unwrap();
    let circuit = adapter.init(entries).unwrap();
    let artifact = adapter.seal_commitment(circuit, vec![1u8, 2, 3]);
    for i in 0..4usize {
        let claim = adapter.prove_inclusion(&artifact, i).unwrap();
        assert_eq!(claim.subject_index, i);
        assert_eq!(claim.username, artifact.entries[i].username);
        assert_eq!(claim.balances, artifact.entries[i].balances);
    }
    assert_eq!(
        adapter.prove_inclusion(&artifact, 4).unwrap_err(),
        BenchError::InvalidSubject
    );
    assert_eq!(
        adapter.prove_inclusion(&artifact, 100).unwrap_err(),
        BenchError::InvalidSubject
    );
}

#[test]
fn recorder_fields() {
    let r = BenchmarkResult::new(15, 131072, 1, 250, 40, "milliseconds".to_string());
    assert_eq!(r.k, 15);
    assert_eq!(r.n_users, 131072);
    assert_eq!(r.n_currencies, 1);
    assert_eq!(r.commitment_generation_time, 250);
    assert_eq!(r.inclusion_generation_time, 40);
    assert_eq!(r.time_unit, "milliseconds");
}

#[test]
fn recorder_renders_pretty_text() {
    let r = BenchmarkResult::new(4, 4, 1, 12, 3, "milliseconds".to_string());
    let expected = "{\n  \"k\": 4,\n  \"n_users\": 4,\n  \"n_currencies\": 1,\n  \"commitment_generation_time\": 12,\n  \"inclusion_generation_time\": 3,\n  \"time_unit\": \"milliseconds\"\n}";
    assert_eq!(r.to_json(), expected);
}

#[test]
fn recorder_round_trip() {
    let r = BenchmarkResult::new(15, 131066, 2, 98765, 432, "milliseconds".to_string());
    let text = r.to_json();
    let back = parse_json(&text).unwrap();
    assert_eq!(back.k, r.k);
    assert_eq!(back.n_users, r.n_users);
    assert_eq!(back.n_currencies, r.n_currencies);
    assert_eq!(back.commitment_generation_time, r.commitment_generation_time);
    assert_eq!(back.inclusion_generation_time, r.inclusion_generation_time);
    assert_eq!(back.time_unit, r.time_unit);
}

#[test]
fn recorder_round_trip_extremes() {
    let r = BenchmarkResult::new(0, 0, 0, 0, usize::MAX, "".to_string());
    let back = parse_json(&r.to_json()).unwrap();
    assert_eq!(back.k, 0);
    assert_eq!(back.n_users, 0);
    assert_eq!(back.n_currencies, 0);
    assert_eq!(back.commitment_generation_time, 0);
    assert_eq!(back.inclusion_generation_time, usize::MAX);
    assert_eq!(back.time_unit, "");
}

#[test]
fn recorder_rejects_malformed_text() {
    assert!(parse_json("").is_none());
    assert!(parse_json("{}").is_none());
    assert!(parse_json("{\n  \"k\": ,\n}").is_none());
    let r = BenchmarkResult::new(4, 4, 1, 12, 3, "milliseconds".to_string());
    let text = r.to_json();
    assert!(parse_json(&text[..text.len() - 1]).is_none());
    let overflowing = text.replace("\"k\": 4", "\"k\": 99999999999");
    assert!(parse_json(&overflowing).is_none());
}

#[test]
fn rendered_text_is_json_for_serde() {
    let r = BenchmarkResult::new(15, 131072, 1, 250, 40, "milliseconds".to_string());
    let v: serde_json::Value = serde_json::from_str(&r.to_json()).unwrap();
    assert_eq!(v.get("k").unwrap().as_u64().unwrap(), 15);
    assert_eq!(v.get("n_users").unwrap().as_u64().unwrap(), 131072);
    assert_eq!(v.get("n_currencies").unwrap().as_u64().unwrap(), 1);
    assert_eq!(
        v.get("commitment_generation_time").unwrap().as_u64().unwrap(),
        250
    );
    assert_eq!(
        v.get("inclusion_generation_time").unwrap().as_u64().unwrap(),
        40
    );
    assert_eq!(v.get("time_unit").unwrap().as_str().unwrap(), "milliseconds");
}

#[test]
fn output_filename_from_parameters() {
    assert_eq!(output_filename("v1", 15, 131072, 1), "v1_k15_u131072_c1.json");
    assert_eq!(output_filename("v3a", 17, 131071, 2), "v3a_k17_u131071_c2.json");
}

#[test]
fn orchestrator_rejects_population_mismatch() {
    let mut run = BenchmarkRun::new(4, 4, 1);
    let entries = generate_dummy_entries(3, 1).unwrap();
    assert_eq!(
        run.entries_ready(&entries).unwrap_err(),
        BenchError::InvalidConfiguration
    );
    assert_eq!(run.phase, Phase::Idle);
}

#[test]
fn orchestrator_rejects_subject_out_of_range() {
    let mut run = BenchmarkRun::new(4, 4, 1);
    let entries = generate_dummy_entries(4, 1).unwrap();
    run.entries_ready(&entries).unwrap();
    run.setup_done(10);
    run.commitment_proved(10, 25);
    assert_eq!(
        run.inclusion_proved(4, 25, 30).unwrap_err(),
        BenchError::InvalidSubject
    );
    assert_eq!(run.phase, Phase::Committed);
}

#[test]
fn end_to_end_small_run() {
    let config = BenchConfig::new(4, 2, 1, 8, 0).unwrap();
    assert_eq!(config.n_users, 4);
    let entries = generate_dummy_entries(config.n_users, config.n_currencies).unwrap();
    assert_eq!(entries.len(), 4);
    for e in &entries {
        assert_eq!(e.balances.len(), 1);
        assert!(e.balances[0] >= 1000 && e.balances[0] < 90000);
    }
    let mut run = BenchmarkRun::new(config.k, config.n_users, config.n_currencies);
    assert_eq!(run.phase, Phase::Idle);
    run.entries_ready(&entries).unwrap();
    assert_eq!(run.phase, Phase::EntriesReady);
    run.setup_done(100);
    assert_eq!(run.phase, Phase::CircuitReady);
    run.commitment_proved(100, 180);
    assert_eq!(run.phase, Phase::Committed);
    run.inclusion_proved(2, 180, 195).unwrap();
    assert_eq!(run.phase, Phase::Included);
    let result = run.finish("milliseconds".to_string());
    assert_eq!(run.phase, Phase::Done);
    assert_eq!(result.k, 4);
    assert_eq!(result.n_users, 4);
    assert_eq!(result.n_currencies, 1);
    assert_eq!(result.commitment_generation_time, 80);
    assert_eq!(result.inclusion_generation_time, 15);
    assert_eq!(result.time_unit, "milliseconds");
    let filename = output_filename("v1", result.k, result.n_users, result.n_currencies);
    assert!(filename.ends_with("_k4_u4_c1.json"));
    let v: serde_json::Value = serde_json::from_str(&result.to_json()).unwrap();
    assert_eq!(v.get("n_users").unwrap().as_u64().unwrap(), 4);
    assert_eq!(v.get("n_currencies").unwrap().as_u64().unwrap(), 1);
    assert_eq!(v.get("time_unit").unwrap().as_str().unwrap(), "milliseconds");
}
