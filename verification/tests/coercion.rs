use subsonic_client::coerce::{str_eq, str_to_u64, u64_to_string};
use subsonic_client::error::Error;
use subsonic_client::json::{parse_json, parse_lenient_uint, Json};
use subsonic_client::query::Query;

#[test]
fn decimal_parsing_accepts_the_whole_range() {
    assert_eq!(str_to_u64("0"), Some(0));
    assert_eq!(str_to_u64("1"), Some(1));
    assert_eq!(str_to_u64("9876543210"), Some(9876543210));
    assert_eq!(str_to_u64("18446744073709551615"), Some(u64::MAX));
}

#[test]
fn decimal_parsing_rejects_everything_else() {
    assert_eq!(str_to_u64(""), None);
    assert_eq!(str_to_u64("1a"), None);
    assert_eq!(str_to_u64("-1"), None);
    assert_eq!(str_to_u64(" 1"), None);
    assert_eq!(str_to_u64("1.5"), None);
    assert_eq!(str_to_u64("18446744073709551616"), None);
}

#[test]
fn rendering_and_parsing_are_inverse() {
    assert_eq!(u64_to_string(0), String::from("0"));
    assert_eq!(u64_to_string(907), String::from("907"));
    assert_eq!(u64_to_string(u64::MAX), String::from("18446744073709551615"));
    for n in [0u64, 1, 9, 10, 99, 100, 12345678901234567, u64::MAX] {
        assert_eq!(str_to_u64(u64_to_string(n).as_str()), Some(n));
    }
}

#[test]
fn string_comparison_is_exact() {
    assert!(str_eq("", ""));
    assert!(str_eq("status", "status"));
    assert!(!str_eq("status", "statu"));
    assert!(!str_eq("status", "statuses"));
    assert!(!str_eq("a", "b"));
}

#[test]
fn parsing_builds_the_structured_value() {
    let v = parse_json(r#"{"a":[1,"x",null,true,-2,1.5]}"#).unwrap();
    let expected = Json::Obj(vec![(
        String::from("a"),
        Json::Arr(vec![
            Json::Num(1),
            Json::Str(String::from("x")),
            Json::Null,
            Json::Bool(true),
            Json::BadNum(String::from("-2")),
            Json::BadNum(String::from("1.5")),
        ]),
    )]);
    assert_eq!(v, expected);
}

#[test]
fn parsing_refuses_malformed_text() {
    assert_eq!(parse_json("not json"), None);
    assert_eq!(parse_json(""), None);
    assert_eq!(parse_json("{\"a\":"), None);
}

#[test]
fn lenient_coercion_is_uniform() {
    assert_eq!(parse_lenient_uint(&Json::Num(12), "id"), Ok(12));
    assert_eq!(parse_lenient_uint(&Json::Str(String::from("12")), "id"), Ok(12));
    assert_eq!(
        parse_lenient_uint(&Json::Str(String::from("abc")), "id"),
        Err(Error::Malformed(String::from("id"), String::from("abc")))
    );
    assert_eq!(
        parse_lenient_uint(&Json::Bool(true), "songCount"),
        Err(Error::Malformed(String::from("songCount"), String::from("true")))
    );
    assert_eq!(
        parse_lenient_uint(&Json::Null, "albumCount"),
        Err(Error::Malformed(String::from("albumCount"), String::from("null")))
    );
}

#[test]
fn query_omits_absent_arguments() {
    let q = Query::with("id", String::from("1"))
        .arg("count", None)
        .arg("size", Some(String::from("64")));
    assert_eq!(
        q.pairs,
        vec![
            (String::from("id"), String::from("1")),
            (String::from("size"), String::from("64")),
        ]
    );
}

#[test]
fn first_binding_of_a_key_wins() {
    let v = Json::Obj(vec![
        (String::from("id"), Json::Num(1)),
        (String::from("id"), Json::Num(2)),
    ]);
    assert_eq!(subsonic_client::json::field(&v, "id"), Some(&Json::Num(1)));
    assert_eq!(subsonic_client::json::field(&v, "name"), None);
}
