use mongo_repo::name::to_coll_name;

#[test]
fn camel_case_identifier_is_snake_cased_and_pluralized() {
    assert_eq!(to_coll_name("UserProfile"), "user_profiles");
}

#[test]
fn lowercase_identifier_only_gets_the_suffix() {
    assert_eq!(to_coll_name("log"), "logs");
}

#[test]
fn qualified_identifier_uses_its_short_name() {
    assert_eq!(to_coll_name("my_app::models::UserProfile"), "user_profiles");
}

#[test]
fn resolver_is_deterministic() {
    let a = to_coll_name("AccessToken");
    let b = to_coll_name("AccessToken");
    assert_eq!(a, b);
    assert_eq!(a, "access_tokens");
}

#[test]
fn single_uppercase_word() {
    assert_eq!(to_coll_name("A"), "as");
    assert_eq!(to_coll_name("AB"), "a_bs");
}

#[test]
fn empty_identifier_is_just_the_suffix() {
    assert_eq!(to_coll_name(""), "s");
}

#[test]
fn digits_and_underscores_pass_through() {
    assert_eq!(to_coll_name("OAuth2Token"), "o_auth2_tokens");
    assert_eq!(to_coll_name("already_snake"), "already_snakes");
}
