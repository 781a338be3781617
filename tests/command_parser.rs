use redis_shield::command_parser::{
    create_algorithm_config, eq_ignore_ascii_case, parse_command_args, parse_positive_integer,
    same_text, DEFAULT_TOKENS,
};
use redis_shield::error::ShieldError;
use redis_shield::traffic_policy::PolicyConfig;

#[test]
fn parse_base_args_defaults_tokens_and_algorithm() {
    let args = ["SHIELD.absorb", "user1", "10", "60"];
    let invocation = parse_command_args(&args).expect("parse base args");
    assert_eq!(invocation.tokens, DEFAULT_TOKENS);
    match invocation.cfg {
        PolicyConfig::TokenBucket { capacity, period } => {
            assert_eq!(capacity, 10);
            assert_eq!(period, 60);
        }
        _ => panic!("expected token_bucket config"),
    }
    assert_eq!(invocation.key, "user1");
}

#[test]
fn parse_args_with_tokens() {
    let args = ["SHIELD.absorb", "user1", "10", "60", "5"];
    let invocation = parse_command_args(&args).expect("parse tokens");
    assert_eq!(invocation.tokens, 5);
    match invocation.cfg {
        PolicyConfig::TokenBucket { capacity, period } => {
            assert_eq!(capacity, 10);
            assert_eq!(period, 60);
        }
        _ => panic!("expected token_bucket config"),
    }
}

#[test]
fn parse_args_with_algorithm_only() {
    let args = ["SHIELD.absorb", "user1", "10", "60", "ALGORITHM", "fixed_window"];
    let invocation = parse_command_args(&args).expect("parse algorithm only");
    assert_eq!(invocation.tokens, DEFAULT_TOKENS);
    match invocation.cfg {
        PolicyConfig::FixedWindow { capacity, period } => {
            assert_eq!(capacity, 10);
            assert_eq!(period, 60);
        }
        _ => panic!("expected fixed_window config"),
    }
}

#[test]
fn parse_args_with_tokens_and_algorithm() {
    let args = ["SHIELD.absorb", "user1", "10", "60", "5", "ALGORITHM", "sliding_window"];
    let invocation = parse_command_args(&args).expect("parse tokens + algorithm");
    assert_eq!(invocation.tokens, 5);
    match invocation.cfg {
        PolicyConfig::SlidingWindow { capacity, period } => {
            assert_eq!(capacity, 10);
            assert_eq!(period, 60);
        }
        _ => panic!("expected sliding_window config"),
    }
}

#[test]
fn parse_args_with_algorithm_missing_value() {
    let args = ["SHIELD.absorb", "user1", "10", "60", "ALGORITHM"];
    match parse_command_args(&args) {
        Err(e) => {
            assert_eq!(e, ShieldError::AlgorithmValueMissing);
            assert_eq!(e.message(), "ERR algorithm value missing");
        }
        _ => panic!("expected algorithm value missing error"),
    }
}

#[test]
fn parse_args_rejects_algorithm_before_tokens() {
    let args = ["SHIELD.absorb", "user1", "10", "60", "ALGORITHM", "fixed_window", "5"];
    match parse_command_args(&args) {
        Err(ShieldError::WrongArity) => {}
        _ => panic!("expected wrong arity for invalid argument order"),
    }
}

#[test]
fn algorithm_flag_ignores_case() {
    let args = ["SHIELD.absorb", "u", "10", "60", "algorithm", "leaky_bucket"];
    let invocation = parse_command_args(&args).unwrap();
    assert_eq!(invocation.cfg, PolicyConfig::LeakyBucket { capacity: 10, period: 60 });
    let args = ["SHIELD.absorb", "u", "10", "60", "3", "AlGoRiThM", "token_bucket"];
    let invocation = parse_command_args(&args).unwrap();
    assert_eq!(invocation.tokens, 3);
}

#[test]
fn algorithm_name_is_case_sensitive() {
    let args = ["SHIELD.absorb", "u", "10", "60", "ALGORITHM", "Token_Bucket"];
    assert!(matches!(parse_command_args(&args), Err(ShieldError::UnknownAlgorithm)));
}

#[test]
fn too_few_or_too_many_arguments() {
    let few = ["SHIELD.absorb", "u", "10"];
    assert!(matches!(parse_command_args(&few), Err(ShieldError::WrongArity)));
    let many = ["SHIELD.absorb", "u", "10", "60", "1", "ALGORITHM", "token_bucket", "x"];
    assert!(matches!(parse_command_args(&many), Err(ShieldError::WrongArity)));
}

#[test]
fn six_arguments_without_flag() {
    let args = ["SHIELD.absorb", "u", "10", "60", "5", "ALGORITHM"];
    assert!(matches!(parse_command_args(&args), Err(ShieldError::AlgorithmValueMissing)));
    let args = ["SHIELD.absorb", "u", "10", "60", "5", "6"];
    assert!(matches!(parse_command_args(&args), Err(ShieldError::WrongArity)));
}

#[test]
fn seven_arguments_with_bad_units() {
    let args = ["SHIELD.absorb", "u", "10", "60", "0", "ALGORITHM", "token_bucket"];
    assert!(matches!(parse_command_args(&args), Err(ShieldError::TokensNotPositive)));
}

#[test]
fn capacity_checked_before_algorithm_name() {
    let args = ["SHIELD.absorb", "u", "0", "60", "ALGORITHM", "bogus"];
    assert!(matches!(parse_command_args(&args), Err(ShieldError::CapacityNotPositive)));
    let args = ["SHIELD.absorb", "u", "10", "-1", "ALGORITHM", "bogus"];
    assert!(matches!(parse_command_args(&args), Err(ShieldError::PeriodNotPositive)));
}

#[test]
fn algorithm_config_per_name() {
    assert_eq!(
        create_algorithm_config("sliding_window", "7", "9"),
        Ok(PolicyConfig::SlidingWindow { capacity: 7, period: 9 })
    );
    assert_eq!(create_algorithm_config("fixed", "7", "9"), Err(ShieldError::UnknownAlgorithm));
}

#[test]
fn positive_integer_parsing() {
    assert_eq!(parse_positive_integer("+42", ShieldError::CapacityNotPositive), Ok(42));
    assert_eq!(
        parse_positive_integer("9223372036854775807", ShieldError::CapacityNotPositive),
        Ok(i64::MAX)
    );
    assert_eq!(
        parse_positive_integer("9223372036854775808", ShieldError::CapacityNotPositive),
        Err(ShieldError::CapacityNotPositive)
    );
    assert_eq!(
        parse_positive_integer(" 4", ShieldError::PeriodNotPositive),
        Err(ShieldError::PeriodNotPositive)
    );
}

#[test]
fn text_comparisons() {
    assert!(eq_ignore_ascii_case("ALGORITHM", "algorithm"));
    assert!(!eq_ignore_ascii_case("ALGORITHMS", "algorithm"));
    assert!(!eq_ignore_ascii_case("ALGORITHN", "algorithm"));
    assert!(same_text("abc", "abc"));
    assert!(!same_text("abc", "abd"));
    assert!(!same_text("abc", "ab"));
}
