use payflow::ids::{
    cache_key, drainer_stream_name, generate_attempt_id, generate_payment_id, generate_refund_id,
    generate_token, generate_validation_id, make_client_secret, make_id, unix_now,
    ATTEMPT_ID_LENGTH, PAYMENT_ID_LENGTH, REFUND_ID_LENGTH, VALIDATION_ID_LENGTH,
};
use payflow::ids::{shard_key_name, u64_to_decimal};
use payflow::kv::shard_for;

#[test]
fn token_is_32_lowercase_hex() {
    let t = generate_token();
    assert_eq!(t.len(), 32);
    assert!(t.chars().all(|c| c.is_ascii_hexdigit() && !c.is_ascii_uppercase()));
}

#[test]
fn tokens_differ_between_calls() {
    assert_ne!(generate_token(), generate_token());
}

#[test]
fn generated_ids_have_fixed_lengths_and_prefixes() {
    let p = generate_payment_id();
    assert_eq!(p.len(), PAYMENT_ID_LENGTH);
    assert!(p.starts_with("pay_"));
    let v = generate_validation_id();
    assert_eq!(v.len(), VALIDATION_ID_LENGTH);
    assert!(v.starts_with("val_"));
    let a = generate_attempt_id();
    assert_eq!(a.len(), ATTEMPT_ID_LENGTH);
    assert!(a.starts_with("att_"));
    let r = generate_refund_id();
    assert_eq!(r.len(), REFUND_ID_LENGTH);
    assert!(r.starts_with("ref_"));
}

#[test]
fn make_id_joins_prefix_and_token() {
    let id = make_id("pay", &String::from("abc123"));
    assert_eq!(id, "pay_abc123");
}

#[test]
fn client_secret_shape() {
    let s = make_client_secret("pay_1", &String::from("tok"));
    assert_eq!(s, "pay_1_secret_tok");
}

#[test]
fn cache_key_shape() {
    assert_eq!(cache_key("pay_123", "M1"), "pay_123_M1");
}

#[test]
fn drainer_stream_name_shape() {
    assert_eq!(drainer_stream_name("shard_5", "drainer_stream"), "{shard_5}_drainer_stream");
}

#[test]
fn decimal_rendering() {
    assert_eq!(u64_to_decimal(0), "0");
    assert_eq!(u64_to_decimal(5), "5");
    assert_eq!(u64_to_decimal(10), "10");
    assert_eq!(u64_to_decimal(120_034), "120034");
    assert_eq!(u64_to_decimal(u64::MAX), "18446744073709551615");
}

#[test]
fn shard_key_names_compose_with_the_stream_name() {
    assert_eq!(shard_key_name(5), "shard_5");
    let shard = shard_for("M1", "pay_1", 8);
    let name = drainer_stream_name(&shard_key_name(shard as u64), "drainer_stream");
    assert!(name.starts_with("{shard_"));
    assert!(name.ends_with("}_drainer_stream"));
}

#[test]
fn unix_now_is_reasonable() {
    // after 2020-01-01 and before 2100-01-01 on any sane clock
    let t = unix_now();
    assert!(t > 1_577_836_800);
    assert!(t < 4_102_444_800);
}

#[test]
fn shard_for_is_deterministic_and_in_range() {
    let a = shard_for("M1", "pay_1", 8);
    let b = shard_for("M1", "pay_1", 8);
    assert_eq!(a, b);
    assert!(a < 8);
    for i in 0..50u32 {
        let bid = format!("pay_{}", i);
        assert!(shard_for("M1", &bid, 8) < 8);
    }
    // one partition owns everything
    assert_eq!(shard_for("M1", "anything", 1), 0);
}

#[test]
fn shard_depends_on_both_parts() {
    // with many partitions, some pair below must differ if the hash reads
    // its inputs at all
    let mut seen_diff = false;
    for i in 0..20u32 {
        let bid = format!("p{}", i);
        if shard_for("M1", &bid, 64) != shard_for("M2", &bid, 64) {
            seen_diff = true;
        }
    }
    assert!(seen_diff);
}
