use osc_tester::{build_message, infer_argument, infer_arguments, Argument, FloatReadings};

fn readings(token: &str) -> FloatReadings {
    FloatReadings {
        single: token.parse::<f32>().ok().map(f32::to_bits),
        double: token.parse::<f64>().ok().map(f64::to_bits),
    }
}

fn infer(token: &str) -> Argument {
    infer_argument(token, readings(token))
}

#[test]
fn integer_token_is_int32() {
    assert_eq!(infer("42"), Argument::Int32(42));
    assert_eq!(infer("-7"), Argument::Int32(-7));
    assert_eq!(infer("+7"), Argument::Int32(7));
    assert_eq!(infer("0"), Argument::Int32(0));
}

#[test]
fn integer_limits() {
    assert_eq!(infer("2147483647"), Argument::Int32(i32::MAX));
    assert_eq!(infer("-2147483648"), Argument::Int32(i32::MIN));
    // one past the range no longer reads as i32; it reads as a float
    assert_eq!(infer("2147483648"), Argument::Float32(2147483648.0f32.to_bits()));
}

#[test]
fn decimal_token_is_float32() {
    assert_eq!(infer("3.14"), Argument::Float32(3.14f32.to_bits()));
    assert_eq!(infer("2.0"), Argument::Float32(2.0f32.to_bits()));
    assert_eq!(infer("-0.5"), Argument::Float32((-0.5f32).to_bits()));
}

#[test]
fn out_of_single_range_is_float64() {
    assert_eq!(infer("1e40"), Argument::Float64(1e40f64.to_bits()));
    assert_eq!(infer("1e-50"), Argument::Float64(1e-50f64.to_bits()));
}

#[test]
fn infinity_and_zero_stay_float32() {
    assert_eq!(infer("inf"), Argument::Float32(f32::INFINITY.to_bits()));
    assert_eq!(infer("0.0"), Argument::Float32(0.0f32.to_bits()));
    assert_eq!(infer("1e400"), Argument::Float32(f32::INFINITY.to_bits()));
}

#[test]
fn boolean_words_are_integers() {
    assert_eq!(infer("true"), Argument::Int32(1));
    assert_eq!(infer("True"), Argument::Int32(1));
    assert_eq!(infer("TRUE"), Argument::Int32(1));
    assert_eq!(infer("t"), Argument::Int32(1));
    assert_eq!(infer("T"), Argument::Int32(1));
    assert_eq!(infer("false"), Argument::Int32(0));
    assert_eq!(infer("False"), Argument::Int32(0));
    assert_eq!(infer("f"), Argument::Int32(0));
    assert_eq!(infer("F"), Argument::Int32(0));
}

#[test]
fn other_tokens_are_strings() {
    assert_eq!(infer("hello"), Argument::Str("hello".to_string()));
    assert_eq!(infer("hoge"), Argument::Str("hoge".to_string()));
    assert_eq!(infer(""), Argument::Str(String::new()));
    assert_eq!(infer(" 7"), Argument::Str(" 7".to_string()));
    assert_eq!(infer("tru"), Argument::Str("tru".to_string()));
    assert_eq!(infer("é"), Argument::Str("é".to_string()));
}

#[test]
fn readings_decide_only_after_integer() {
    // the integer rule comes first, whatever the float readings say
    let r = FloatReadings { single: Some(1), double: Some(2) };
    assert_eq!(infer_argument("5", r), Argument::Int32(5));
    let r = FloatReadings { single: None, double: Some(2) };
    assert_eq!(infer_argument("x", r), Argument::Float64(2));
}

#[test]
fn every_token_gives_one_argument() {
    let tokens: Vec<String> =
        vec!["1", "2.0", "hoge", "", "t", "nan", "1e40"].into_iter().map(String::from).collect();
    let rs: Vec<FloatReadings> = tokens.iter().map(|t| readings(t)).collect();
    let args = infer_arguments(&tokens, &rs);
    assert_eq!(args.len(), tokens.len());
    for a in &args {
        assert!(a.type_tag().is_some());
    }
}

#[test]
fn message_from_tokens() {
    let tokens: Vec<String> = vec!["1".to_string(), "2.0".to_string(), "hoge".to_string()];
    let rs: Vec<FloatReadings> = tokens.iter().map(|t| readings(t)).collect();
    let m = build_message("/hoge", &tokens, &rs);
    assert_eq!(m.addr, "/hoge");
    assert_eq!(
        m.args,
        vec![
            Argument::Int32(1),
            Argument::Float32(2.0f32.to_bits()),
            Argument::Str("hoge".to_string())
        ]
    );
}
