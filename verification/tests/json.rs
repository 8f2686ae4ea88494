use llm_cascade::json::{
    arr1, get_field, index, jstr, obj1, obj2, obj3, str_of, str_or_default, text_of_opt, to_text,
    u64_of, Json,
};

#[test]
fn compact_text_sorts_object_keys() {
    let j = obj3("b", Json::UInt(1), "a", Json::Null, "c", arr1(Json::Bool(true)));
    assert_eq!(to_text(&j), r#"{"a":null,"b":1,"c":[true]}"#);
}

#[test]
fn compact_text_escapes_strings_and_keeps_numbers() {
    assert_eq!(to_text(&jstr("a\"b\n")), r#""a\"b\n""#);
    assert_eq!(to_text(&Json::NegInt(-5)), "-5");
    assert_eq!(to_text(&Json::Float("1.5".to_string())), "1.5");
    assert_eq!(to_text(&Json::Arr(vec![])), "[]");
    assert_eq!(to_text(&Json::Obj(vec![])), "{}");
    assert_eq!(text_of_opt(None), "null");
}

#[test]
fn field_access_follows_index_semantics() {
    let j = obj2("name", jstr("f"), "n", Json::UInt(3));
    assert!(get_field(&j, "missing").is_none());
    assert_eq!(str_of(get_field(&j, "name")).map(|s| s.as_str()), Some("f"));
    assert_eq!(u64_of(index(Some(&j), "n")), Some(3));
    assert_eq!(u64_of(index(Some(&j), "name")), None);
    assert!(index(index(Some(&j), "missing"), "deeper").is_none());
    assert_eq!(str_or_default(index(Some(&j), "missing"), "dflt"), "dflt");
    let nested = obj1("outer", obj1("inner", jstr("x")));
    assert_eq!(str_of(index(index(Some(&nested), "outer"), "inner")).map(|s| s.as_str()), Some("x"));
    assert_eq!(text_of_opt(index(Some(&nested), "outer")), r#"{"inner":"x"}"#);
}
